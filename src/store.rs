use vstd::prelude::*;

use std::collections::HashMap;

use crate::achievement::{
    earned_tags, earns, evaluate, lemma_earned_tags_members, updated_profile, AchievementTag, ProfileUpdate, ProfileView, UserProfile,
};
use crate::error::AppError;

verus! {

broadcast use vstd::std_specs::hash::group_hash_axioms;

/// The abstract state of a store: profile rows by user id, and the set of
/// (user id, tag) grants.
pub struct StoreState {
    pub profiles: Map<i32, ProfileView>,
    pub grants: Set<(i32, AchievementTag)>,
}

/// The grants that `tags` stand for when given to `user_id`.
pub open spec fn grants_for(user_id: i32, tags: Seq<AchievementTag>) -> Set<(i32, AchievementTag)> {
    Set::new(|g: (i32, AchievementTag)| g.0 == user_id && tags.contains(g.1))
}

/// The store after granting `tags` to `user_id`: grants are only ever added.
pub open spec fn reconciled(s: StoreState, user_id: i32, tags: Seq<AchievementTag>) -> StoreState {
    StoreState { profiles: s.profiles, grants: s.grants.union(grants_for(user_id, tags)) }
}

/// The store after a profile row is written as a whole.
pub open spec fn with_profile(s: StoreState, p: ProfileView) -> StoreState {
    StoreState { profiles: s.profiles.insert(p.id, p), grants: s.grants }
}

/// The store after an update of an existing profile: the fields are written,
/// then the tags earned by the row as it now stands are granted.
pub open spec fn after_update(s: StoreState, user_id: i32, u: ProfileUpdate) -> StoreState {
    let p = updated_profile(s.profiles[user_id], u);
    reconciled(
        StoreState { profiles: s.profiles.insert(user_id, p), grants: s.grants },
        user_id,
        earned_tags(p),
    )
}

/// A profile and the tags granted to its user.
pub struct ProfileAchievements {
    pub profile: UserProfile,
    pub achievements: Vec<AchievementTag>,
}

/// An in-memory profile and achievement store with append-only grants.
pub struct MemoryStore {
    profiles: HashMap<i32, UserProfile>,
    grants: Vec<(i32, AchievementTag)>,
}

impl View for MemoryStore {
    type V = StoreState;

    closed spec fn view(&self) -> StoreState {
        StoreState {
            profiles: self.profiles@.map_values(|p: UserProfile| p@),
            grants: self.grants@.to_set(),
        }
    }
}

impl MemoryStore {
    /// Each grant is held once, and each row is filed under its own id.
    pub closed spec fn wf(&self) -> bool {
        &&& self.grants@.no_duplicates()
        &&& forall|k: i32| #[trigger] self.profiles@.contains_key(k) ==> self.profiles@[k].id == k
    }

    pub fn new() -> (r: Self)
        ensures
            r.wf(),
            r@.profiles == Map::<i32, ProfileView>::empty(),
            r@.grants == Set::<(i32, AchievementTag)>::empty(),
    {
        let r = MemoryStore { profiles: HashMap::new(), grants: Vec::new() };
        assert(r@.profiles =~= Map::<i32, ProfileView>::empty());
        assert(r@.grants =~= Set::<(i32, AchievementTag)>::empty());
        r
    }

    /// Writes a whole profile row, keyed by its id.
    pub fn put_profile(&mut self, profile: UserProfile)
        requires
            old(self).wf(),
        ensures
            final(self).wf(),
            final(self)@ == with_profile(old(self)@, profile@),
    {
        let ghost pv = profile@;
        let id = profile.id;
        self.profiles.insert(id, profile);
        assert(self@.profiles =~= old(self)@.profiles.insert(id, pv));
    }

    fn holds(&self, user_id: i32, tag: AchievementTag) -> (r: bool)
        ensures
            r == self@.grants.contains((user_id, tag)),
    {
        let mut i: usize = 0;
        while i < self.grants.len()
            invariant
                0 <= i <= self.grants@.len(),
                forall|j: int| 0 <= j < i ==> self.grants@[j] != (user_id, tag),
            decreases self.grants@.len() - i,
        {
            let g = self.grants[i];
            if g.0 == user_id && g.1 == tag {
                assert(self.grants@[i as int] == (user_id, tag));
                return true;
            }
            i = i + 1;
        }
        false
    }

    /// Grants each of `tags` to `user_id`; a tag already held is left as it
    /// is. Returns the tags that were newly granted by this call.
    pub fn reconcile(&mut self, user_id: i32, tags: &Vec<AchievementTag>) -> (granted_now: Vec<
        AchievementTag,
    >)
        requires
            old(self).wf(),
        ensures
            final(self).wf(),
            final(self)@ == reconciled(old(self)@, user_id, tags@),
            forall|t: AchievementTag| #[trigger]
                granted_now@.contains(t) <==> tags@.contains(t) && !old(self)@.grants.contains(
                    (user_id, t),
                ),
            granted_now@.no_duplicates(),
    {
        let ghost old_grants = self@.grants;
        let mut granted_now: Vec<AchievementTag> = Vec::new();
        let mut i: usize = 0;
        while i < tags.len()
            invariant
                0 <= i <= tags@.len(),
                self.wf(),
                self@.profiles == old(self)@.profiles,
                old_grants == old(self)@.grants,
                self@.grants == old_grants.union(grants_for(user_id, tags@.take(i as int))),
                forall|t: AchievementTag| #[trigger]
                    granted_now@.contains(t) <==> tags@.take(i as int).contains(t)
                        && !old_grants.contains((user_id, t)),
                granted_now@.no_duplicates(),
            decreases tags@.len() - i,
        {
            let tag = tags[i];
            let ghost before = self.grants@;
            let ghost now = granted_now@;
            let ghost prefix = tags@.take(i as int);
            let ghost next = tags@.take(i as int + 1);
            assert forall|t: AchievementTag|
                #[trigger] next.contains(t) <==> prefix.contains(t) || t == tag by {
                if t == tag {
                    assert(next[i as int] == tag);
                }
                if next.contains(t) && t != tag {
                    let j = choose|j: int| 0 <= j < next.len() && #[trigger] next[j] == t;
                    assert(prefix[j] == t);
                }
                if prefix.contains(t) {
                    let j = choose|j: int| 0 <= j < prefix.len() && #[trigger] prefix[j] == t;
                    assert(next[j] == t);
                }
            }
            if !self.holds(user_id, tag) {
                assert(!old_grants.contains((user_id, tag)));
                self.grants.push((user_id, tag));
                granted_now.push(tag);
                assert(self.grants@[before.len() as int] == (user_id, tag));
                assert(granted_now@[now.len() as int] == tag);
                assert forall|j: int, k: int|
                    0 <= j < k < self.grants@.len() implies self.grants@[j] != self.grants@[k] by {
                    if k == self.grants@.len() - 1 {
                        assert(before.contains(self.grants@[j]));
                    }
                }
                assert forall|j: int, k: int|
                    0 <= j < k < granted_now@.len() implies granted_now@[j] != granted_now@[k] by {
                    if k == granted_now@.len() - 1 {
                        assert(now.contains(granted_now@[j]));
                    }
                }
                assert forall|t: AchievementTag| #[trigger]
                    granted_now@.contains(t) <==> next.contains(t) && !old_grants.contains(
                        (user_id, t),
                    ) by {
                    assert(next.contains(t) <==> prefix.contains(t) || t == tag);
                    if t != tag {
                        if granted_now@.contains(t) {
                            let j = choose|j: int|
                                0 <= j < granted_now@.len() && #[trigger] granted_now@[j] == t;
                            assert(now[j] == t);
                        }
                        if now.contains(t) {
                            let j = choose|j: int| 0 <= j < now.len() && #[trigger] now[j] == t;
                            assert(granted_now@[j] == t);
                        }
                        assert(now.contains(t) <==> prefix.contains(t) && !old_grants.contains(
                            (user_id, t),
                        ));
                    }
                }
            } else {
                assert(self.grants@.contains((user_id, tag)));
                assert forall|t: AchievementTag| #[trigger]
                    granted_now@.contains(t) <==> tags@.take(i as int + 1).contains(t)
                        && !old_grants.contains((user_id, t)) by {
                    if t == tag && !old_grants.contains((user_id, t)) {
                        assert(grants_for(user_id, tags@.take(i as int)).contains((user_id, t)));
                        assert(tags@.take(i as int).contains(t));
                    }
                }
            }
            assert forall|g: (i32, AchievementTag)|
                self.grants@.contains(g) <==> before.contains(g) || g == (user_id, tag) by {
                if self.grants@.contains(g) && g != (user_id, tag) {
                    let j = choose|j: int| 0 <= j < self.grants@.len() && self.grants@[j] == g;
                    assert(before[j] == g);
                }
                if before.contains(g) {
                    let j = choose|j: int| 0 <= j < before.len() && before[j] == g;
                    assert(self.grants@[j] == g);
                }
            }
            assert forall|g: (i32, AchievementTag)|
                #[trigger] self@.grants.contains(g) <==> old_grants.union(
                    grants_for(user_id, next),
                ).contains(g) by {
                if g.0 == user_id {
                    assert(next.contains(g.1) <==> prefix.contains(g.1) || g.1 == tag);
                }
                assert(before.to_set().contains(g) <==> old_grants.union(
                    grants_for(user_id, prefix),
                ).contains(g));
            }
            assert(self@.grants =~= old_grants.union(grants_for(user_id, next)));
            i = i + 1;
        }
        assert(tags@.take(tags@.len() as int) =~= tags@);
        assert(self@.grants =~= old(self)@.grants.union(grants_for(user_id, tags@)));
        granted_now
    }
    /// Writes the present fields of `update` to the profile of `user_id`,
    /// then grants what the row as it now stands earns. An unknown user is
    /// `NotFound` and leaves the store as it was.
    pub fn apply_update(&mut self, user_id: i32, update: &ProfileUpdate) -> (r: Result<
        UserProfile,
        AppError,
    >)
        requires
            old(self).wf(),
        ensures
            final(self).wf(),
            r is Ok <==> old(self)@.profiles.contains_key(user_id),
            r is Err ==> r->Err_0 is NotFound && final(self)@ == old(self)@,
            r matches Ok(p) ==> {
                &&& p@ == updated_profile(old(self)@.profiles[user_id], *update)
                &&& final(self)@ == after_update(old(self)@, user_id, *update)
            },
    {
        let mut profile = match self.profiles.get(&user_id) {
            Some(p) => p.duplicate(),
            None => {
                return Err(AppError::NotFound("User not found".to_string()));
            },
        };
        update.apply_to(&mut profile);
        let ghost written = profile@;
        self.put_profile(profile.duplicate());
        assert(written.id == user_id);
        assert(self@.profiles.contains_key(user_id));
        assert(self.profiles@.contains_key(user_id));
        assert(self.profiles@[user_id]@ == self@.profiles[user_id]);
        let current = match self.profiles.get(&user_id) {
            Some(p) => p.duplicate(),
            None => profile,
        };
        assert(current@ == written);
        let earned = evaluate(&current);
        self.reconcile(user_id, &earned);
        Ok(current)
    }

    /// A profile together with every tag granted to its user, each once, in
    /// store order. An unknown user is `NotFound`, never a partial result.
    pub fn get_profile_with_achievements(&self, user_id: i32) -> (r: Result<
        ProfileAchievements,
        AppError,
    >)
        requires
            self.wf(),
        ensures
            r is Err <==> !self@.profiles.contains_key(user_id),
            r is Err ==> r->Err_0 is NotFound,
            r matches Ok(v) ==> {
                &&& v.profile@ == self@.profiles[user_id]
                &&& forall|t: AchievementTag| #[trigger]
                    v.achievements@.contains(t) <==> self@.grants.contains((user_id, t))
                &&& v.achievements@.no_duplicates()
            },
    {
        let profile = match self.profiles.get(&user_id) {
            Some(p) => p.duplicate(),
            None => {
                return Err(AppError::NotFound("User not found".to_string()));
            },
        };
        let mut achievements: Vec<AchievementTag> = Vec::new();
        let mut i: usize = 0;
        while i < self.grants.len()
            invariant
                0 <= i <= self.grants@.len(),
                self.wf(),
                forall|t: AchievementTag| #[trigger]
                    achievements@.contains(t) <==> self.grants@.take(i as int).contains(
                        (user_id, t),
                    ),
                achievements@.no_duplicates(),
            decreases self.grants@.len() - i,
        {
            let g = self.grants[i];
            let ghost prefix = self.grants@.take(i as int);
            let ghost next = self.grants@.take(i as int + 1);
            let ghost now = achievements@;
            assert forall|h: (i32, AchievementTag)|
                #[trigger] next.contains(h) <==> prefix.contains(h) || h == g by {
                if h == g {
                    assert(next[i as int] == g);
                }
                if next.contains(h) && h != g {
                    let j = choose|j: int| 0 <= j < next.len() && #[trigger] next[j] == h;
                    assert(prefix[j] == h);
                }
                if prefix.contains(h) {
                    let j = choose|j: int| 0 <= j < prefix.len() && #[trigger] prefix[j] == h;
                    assert(next[j] == h);
                }
            }
            if g.0 == user_id {
                assert(!prefix.contains(g)) by {
                    if prefix.contains(g) {
                        let j = choose|j: int| 0 <= j < prefix.len() && #[trigger] prefix[j] == g;
                        assert(self.grants@[j] == self.grants@[i as int]);
                    }
                }
                achievements.push(g.1);
                assert(achievements@[now.len() as int] == g.1);
                assert forall|j: int, k: int|
                    0 <= j < k < achievements@.len() implies achievements@[j]
                    != achievements@[k] by {
                    if k == achievements@.len() - 1 {
                        assert(now.contains(achievements@[j]));
                    }
                }
                assert forall|t: AchievementTag| #[trigger]
                    achievements@.contains(t) <==> next.contains((user_id, t)) by {
                    assert(next.contains((user_id, t)) <==> prefix.contains((user_id, t)) || t
                        == g.1);
                    if t != g.1 {
                        if achievements@.contains(t) {
                            let j = choose|j: int|
                                0 <= j < achievements@.len() && #[trigger] achievements@[j] == t;
                            assert(now[j] == t);
                        }
                        if now.contains(t) {
                            let j = choose|j: int| 0 <= j < now.len() && #[trigger] now[j] == t;
                            assert(achievements@[j] == t);
                        }
                    }
                }
            } else {
                assert forall|t: AchievementTag| #[trigger]
                    achievements@.contains(t) <==> next.contains((user_id, t)) by {
                    assert(next.contains((user_id, t)) <==> prefix.contains((user_id, t)));
                }
            }
            i = i + 1;
        }
        assert(self.grants@.take(self.grants@.len() as int) =~= self.grants@);
        Ok(ProfileAchievements { profile, achievements })
    }
}


/// Granting the same tags to the same user a second time changes nothing:
/// the store ends as it was after the first time.
pub proof fn lemma_reconcile_idempotent(s: StoreState, user_id: i32, tags: Seq<AchievementTag>)
    ensures
        reconciled(reconciled(s, user_id, tags), user_id, tags) == reconciled(s, user_id, tags),
{
    let once = reconciled(s, user_id, tags);
    assert(once.grants.union(grants_for(user_id, tags)) =~= once.grants);
}

/// Applying the same update twice leaves the store as applying it once.
pub proof fn lemma_update_idempotent(s: StoreState, user_id: i32, u: ProfileUpdate)
    requires
        s.profiles.contains_key(user_id),
    ensures
        after_update(after_update(s, user_id, u), user_id, u) == after_update(s, user_id, u),
{
    let once = after_update(s, user_id, u);
    let p = updated_profile(s.profiles[user_id], u);
    assert(once.profiles[user_id] == p);
    assert(updated_profile(p, u) == p);
    assert(once.profiles.insert(user_id, p) =~= once.profiles);
    assert(once.grants.union(grants_for(user_id, earned_tags(p))) =~= once.grants);
}

/// No operation of the store takes a grant away: writing a profile row,
/// granting tags and applying an update all keep every earlier grant, even
/// where the row no longer earns it.
pub proof fn lemma_grants_never_revoked(
    s: StoreState,
    user_id: i32,
    tags: Seq<AchievementTag>,
    u: ProfileUpdate,
    p: ProfileView,
)
    ensures
        s.grants.subset_of(with_profile(s, p).grants),
        s.grants.subset_of(reconciled(s, user_id, tags).grants),
        s.grants.subset_of(after_update(s, user_id, u).grants),
{
}

/// Nothing owed is lost for good: after an update of an existing profile,
/// every tag that the row as it now stands earns is granted, whatever an
/// earlier evaluation on a stale snapshot missed.
pub proof fn lemma_update_grants_all_earned(s: StoreState, user_id: i32, u: ProfileUpdate)
    requires
        s.profiles.contains_key(user_id),
    ensures
        forall|t: AchievementTag|
            earns(after_update(s, user_id, u).profiles[user_id], t) ==> #[trigger] after_update(
                s,
                user_id,
                u,
            ).grants.contains((user_id, t)),
{
    let p = updated_profile(s.profiles[user_id], u);
    lemma_earned_tags_members(p);
    assert(after_update(s, user_id, u).profiles[user_id] == p);
}

} // verus!
