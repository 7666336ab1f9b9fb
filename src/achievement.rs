use vstd::prelude::*;

use crate::error::AppError;

verus! {

/// A completeness marker a profile can earn.
#[derive(Clone, Copy, Debug, PartialEq, Eq, Hash, Structural)]
pub enum AchievementTag {
    UsernameFilled,
    EmailFilled,
    PasswordFilled,
    AllCompleted,
}

impl AchievementTag {
    /// The tag's stored name.
    pub open spec fn name(self) -> Seq<char> {
        match self {
            AchievementTag::UsernameFilled => "USERNAME_FILLED"@,
            AchievementTag::EmailFilled => "EMAIL_FILLED"@,
            AchievementTag::PasswordFilled => "PASSWORD_FILLED"@,
            AchievementTag::AllCompleted => "ALL_COMPLETED"@,
        }
    }

    pub fn as_str(&self) -> (r: &'static str)
        ensures
            r@ == self.name(),
    {
        match self {
            AchievementTag::UsernameFilled => "USERNAME_FILLED",
            AchievementTag::EmailFilled => "EMAIL_FILLED",
            AchievementTag::PasswordFilled => "PASSWORD_FILLED",
            AchievementTag::AllCompleted => "ALL_COMPLETED",
        }
    }
}

pub open spec fn opt_view(o: Option<String>) -> Option<Seq<char>> {
    match o {
        Some(s) => Some(s@),
        None => None,
    }
}

/// A user's profile row: the three optional fields that achievements track.
pub struct UserProfile {
    pub id: i32,
    pub username: Option<String>,
    pub email: Option<String>,
    /// A password-equivalent marker; only its presence matters here.
    pub secret: Option<String>,
}

pub struct ProfileView {
    pub id: i32,
    pub username: Option<Seq<char>>,
    pub email: Option<Seq<char>>,
    pub secret: Option<Seq<char>>,
}

impl View for UserProfile {
    type V = ProfileView;

    open spec fn view(&self) -> ProfileView {
        ProfileView {
            id: self.id,
            username: opt_view(self.username),
            email: opt_view(self.email),
            secret: opt_view(self.secret),
        }
    }
}

fn clone_field(o: &Option<String>) -> (r: Option<String>)
    ensures
        opt_view(r) == opt_view(*o),
{
    match o {
        Some(s) => Some(s.clone()),
        None => None,
    }
}

impl UserProfile {
    /// A profile row with no field set yet.
    pub fn empty(id: i32) -> (r: Self)
        ensures
            r@ == (ProfileView { id, username: None, email: None, secret: None }),
    {
        UserProfile { id, username: None, email: None, secret: None }
    }

    pub fn duplicate(&self) -> (r: Self)
        ensures
            r@ == self@,
    {
        UserProfile {
            id: self.id,
            username: clone_field(&self.username),
            email: clone_field(&self.email),
            secret: clone_field(&self.secret),
        }
    }
}

/// Whether a profile snapshot earns a tag: a field counts once it is present,
/// whatever it holds, and the composite tag needs all three.
pub open spec fn earns(p: ProfileView, t: AchievementTag) -> bool {
    match t {
        AchievementTag::UsernameFilled => p.username is Some,
        AchievementTag::EmailFilled => p.email is Some,
        AchievementTag::PasswordFilled => p.secret is Some,
        AchievementTag::AllCompleted => p.username is Some && p.email is Some && p.secret is Some,
    }
}

pub open spec fn tag_if(b: bool, t: AchievementTag) -> Seq<AchievementTag> {
    if b {
        seq![t]
    } else {
        Seq::empty()
    }
}

/// The earned tags, in the order in which they are granted.
pub open spec fn earned_tags(p: ProfileView) -> Seq<AchievementTag> {
    tag_if(earns(p, AchievementTag::UsernameFilled), AchievementTag::UsernameFilled)
        + tag_if(earns(p, AchievementTag::EmailFilled), AchievementTag::EmailFilled)
        + tag_if(earns(p, AchievementTag::PasswordFilled), AchievementTag::PasswordFilled)
        + tag_if(earns(p, AchievementTag::AllCompleted), AchievementTag::AllCompleted)
}

/// The earned tags are exactly those the snapshot earns, each once.
pub proof fn lemma_earned_tags_members(p: ProfileView)
    ensures
        forall|t: AchievementTag| #[trigger] earned_tags(p).contains(t) <==> earns(p, t),
        earned_tags(p).no_duplicates(),
{
    let a = tag_if(earns(p, AchievementTag::UsernameFilled), AchievementTag::UsernameFilled);
    let b = tag_if(earns(p, AchievementTag::EmailFilled), AchievementTag::EmailFilled);
    let c = tag_if(earns(p, AchievementTag::PasswordFilled), AchievementTag::PasswordFilled);
    let d = tag_if(earns(p, AchievementTag::AllCompleted), AchievementTag::AllCompleted);
    let s = earned_tags(p);
    assert(s == a + b + c + d);
    assert forall|t: AchievementTag| #[trigger] s.contains(t) <==> earns(p, t) by {
        if earns(p, t) {
            let i: int = match t {
                AchievementTag::UsernameFilled => 0,
                AchievementTag::EmailFilled => a.len() as int,
                AchievementTag::PasswordFilled => (a.len() + b.len()) as int,
                AchievementTag::AllCompleted => (a.len() + b.len() + c.len()) as int,
            };
            assert(s[i] == t);
        }
        if s.contains(t) {
            let i = choose|i: int| 0 <= i < s.len() && s[i] == t;
            assert(0 <= i < s.len() && s[i] == t);
        }
    }
}

/// Evaluates a profile snapshot: the tags it earns, in grant order. It has no
/// memory of earlier grants; an absent field only leaves its tag out.
pub fn evaluate(profile: &UserProfile) -> (r: Vec<AchievementTag>)
    ensures
        r@ == earned_tags(profile@),
        forall|t: AchievementTag| #[trigger] r@.contains(t) <==> earns(profile@, t),
        r@.no_duplicates(),
{
    proof {
        lemma_earned_tags_members(profile@);
    }
    let mut earned: Vec<AchievementTag> = Vec::new();
    let mut completed_count: u8 = 0;
    if profile.username.is_some() {
        earned.push(AchievementTag::UsernameFilled);
        completed_count = completed_count + 1;
    }
    if profile.email.is_some() {
        earned.push(AchievementTag::EmailFilled);
        completed_count = completed_count + 1;
    }
    if profile.secret.is_some() {
        earned.push(AchievementTag::PasswordFilled);
        completed_count = completed_count + 1;
    }
    if completed_count == 3 {
        earned.push(AchievementTag::AllCompleted);
    }
    assert(earned@ =~= earned_tags(profile@));
    earned
}

/// A snapshot with all three fields present earns every tag; a snapshot with
/// any field absent does not earn the composite tag.
pub proof fn lemma_completeness(p: ProfileView)
    ensures
        p.username is Some && p.email is Some && p.secret is Some ==> {
            &&& earned_tags(p).contains(AchievementTag::UsernameFilled)
            &&& earned_tags(p).contains(AchievementTag::EmailFilled)
            &&& earned_tags(p).contains(AchievementTag::PasswordFilled)
            &&& earned_tags(p).contains(AchievementTag::AllCompleted)
        },
        p.username is None || p.email is None || p.secret is None ==> !earned_tags(
            p,
        ).contains(AchievementTag::AllCompleted),
{
    lemma_earned_tags_members(p);
}


/// A partial profile update: each present field is written, the others kept.
pub struct ProfileUpdate {
    pub username: Option<String>,
    pub email: Option<String>,
    pub secret: Option<String>,
}

pub open spec fn merge_field(new: Option<String>, old: Option<Seq<char>>) -> Option<Seq<char>> {
    match new {
        Some(s) => Some(s@),
        None => old,
    }
}

/// The profile after an update: last write wins, field by field.
pub open spec fn updated_profile(p: ProfileView, u: ProfileUpdate) -> ProfileView {
    ProfileView {
        id: p.id,
        username: merge_field(u.username, p.username),
        email: merge_field(u.email, p.email),
        secret: merge_field(u.secret, p.secret),
    }
}

impl ProfileUpdate {
    /// Writes every present field of the update into `profile`.
    pub fn apply_to(&self, profile: &mut UserProfile)
        ensures
            final(profile)@ == updated_profile(old(profile)@, *self),
    {
        if let Some(username) = &self.username {
            profile.username = Some(username.clone());
        }
        if let Some(email) = &self.email {
            profile.email = Some(email.clone());
        }
        if let Some(secret) = &self.secret {
            profile.secret = Some(secret.clone());
        }
    }
}

/// A profile together with the names of the achievements granted to it.
pub struct UserAchievementView {
    pub id: i32,
    pub username: Option<String>,
    pub email: Option<String>,
    pub secret: Option<String>,
    pub achievements: Vec<String>,
}

/// The names among stored achievement records, in store order; records
/// without a name are skipped.
pub open spec fn kept_names(records: Seq<Option<String>>) -> Seq<Seq<char>>
    decreases records.len(),
{
    if records.len() == 0 {
        Seq::empty()
    } else {
        let rest = kept_names(records.drop_last());
        match records.last() {
            Some(s) => rest.push(s@),
            None => rest,
        }
    }
}

pub open spec fn names_of(v: Seq<String>) -> Seq<Seq<char>> {
    v.map_values(|s: String| s@)
}

/// Joins a looked-up profile row with the achievement records read for it.
/// A missing row is `NotFound`, never a partial result.
pub fn assemble_achievement_view(profile: Option<UserProfile>, records: &Vec<Option<String>>) -> (r:
    Result<UserAchievementView, AppError>)
    ensures
        r is Err <==> profile is None,
        r is Err ==> r->Err_0 is NotFound,
        r matches Ok(v) ==> {
            let p = profile->Some_0@;
            &&& v.id == p.id
            &&& opt_view(v.username) == p.username
            &&& opt_view(v.email) == p.email
            &&& opt_view(v.secret) == p.secret
            &&& names_of(v.achievements@) == kept_names(records@)
        },
{
    let user = match profile {
        Some(u) => u,
        None => {
            return Err(AppError::NotFound("User not found".to_string()));
        },
    };
    let mut achievements: Vec<String> = Vec::new();
    let mut i: usize = 0;
    while i < records.len()
        invariant
            0 <= i <= records@.len(),
            names_of(achievements@) == kept_names(records@.take(i as int)),
        decreases records@.len() - i,
    {
        proof {
            assert(records@.take(i as int + 1).drop_last() =~= records@.take(i as int));
        }
        if let Some(name) = &records[i] {
            achievements.push(name.clone());
            assert(names_of(achievements@) =~= kept_names(records@.take(i as int + 1)));
        }
        i = i + 1;
    }
    assert(records@.take(records@.len() as int) =~= records@);
    Ok(
        UserAchievementView {
            id: user.id,
            username: user.username,
            email: user.email,
            secret: user.secret,
            achievements,
        },
    )
}

} // verus!
