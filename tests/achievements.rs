use yomu_backend_rust::achievement::{
    assemble_achievement_view, evaluate, AchievementTag, ProfileUpdate, UserProfile,
};
use yomu_backend_rust::error::AppError;
use yomu_backend_rust::store::MemoryStore;

fn profile(id: i32, username: Option<&str>, email: Option<&str>, secret: Option<&str>) -> UserProfile {
    UserProfile {
        id,
        username: username.map(|s| s.to_string()),
        email: email.map(|s| s.to_string()),
        secret: secret.map(|s| s.to_string()),
    }
}

fn update(username: Option<&str>, email: Option<&str>, secret: Option<&str>) -> ProfileUpdate {
    ProfileUpdate {
        username: username.map(|s| s.to_string()),
        email: email.map(|s| s.to_string()),
        secret: secret.map(|s| s.to_string()),
    }
}

fn tags_of(store: &MemoryStore, user_id: i32) -> Vec<AchievementTag> {
    match store.get_profile_with_achievements(user_id) {
        Ok(v) => v.achievements,
        Err(e) => panic!("unexpected error: {}", e.message()),
    }
}

#[test]
fn evaluate_complete_profile_earns_all_four() {
    let p = profile(1, Some("ken"), Some("a@b.c"), Some("x"));
    assert_eq!(
        evaluate(&p),
        vec![
            AchievementTag::UsernameFilled,
            AchievementTag::EmailFilled,
            AchievementTag::PasswordFilled,
            AchievementTag::AllCompleted
        ]
    );
}

#[test]
fn evaluate_missing_field_has_no_composite_tag() {
    let p = profile(1, Some("ken"), None, Some("x"));
    let tags = evaluate(&p);
    assert_eq!(tags, vec![AchievementTag::UsernameFilled, AchievementTag::PasswordFilled]);
    assert!(!tags.contains(&AchievementTag::AllCompleted));
}

#[test]
fn evaluate_empty_strings_count_as_present() {
    let p = profile(1, Some(""), Some(""), Some(""));
    assert_eq!(evaluate(&p).len(), 4);
}

#[test]
fn evaluate_blank_profile_earns_nothing() {
    assert!(evaluate(&UserProfile::empty(3)).is_empty());
}

#[test]
fn tag_names() {
    assert_eq!(AchievementTag::UsernameFilled.as_str(), "USERNAME_FILLED");
    assert_eq!(AchievementTag::EmailFilled.as_str(), "EMAIL_FILLED");
    assert_eq!(AchievementTag::PasswordFilled.as_str(), "PASSWORD_FILLED");
    assert_eq!(AchievementTag::AllCompleted.as_str(), "ALL_COMPLETED");
}

#[test]
fn update_writes_only_present_fields() {
    let mut p = profile(4, Some("old"), Some("e"), None);
    update(Some("new"), None, Some("s")).apply_to(&mut p);
    assert_eq!(p.username.as_deref(), Some("new"));
    assert_eq!(p.email.as_deref(), Some("e"));
    assert_eq!(p.secret.as_deref(), Some("s"));
}

#[test]
fn reconcile_reports_only_new_grants() {
    let mut store = MemoryStore::new();
    store.put_profile(UserProfile::empty(5));
    let first = store.reconcile(5, &vec![AchievementTag::UsernameFilled, AchievementTag::EmailFilled]);
    assert_eq!(first, vec![AchievementTag::UsernameFilled, AchievementTag::EmailFilled]);
    let second = store.reconcile(5, &vec![AchievementTag::EmailFilled, AchievementTag::PasswordFilled]);
    assert_eq!(second, vec![AchievementTag::PasswordFilled]);
}

#[test]
fn reconcile_twice_is_same_as_once() {
    let mut store = MemoryStore::new();
    store.put_profile(UserProfile::empty(6));
    let tags = vec![AchievementTag::UsernameFilled, AchievementTag::AllCompleted];
    store.reconcile(6, &tags);
    let once = tags_of(&store, 6);
    let again = store.reconcile(6, &tags);
    assert!(again.is_empty());
    assert_eq!(tags_of(&store, 6), once);
}

#[test]
fn reconcile_duplicate_input_grants_once() {
    let mut store = MemoryStore::new();
    store.put_profile(UserProfile::empty(8));
    let granted = store.reconcile(8, &vec![AchievementTag::EmailFilled, AchievementTag::EmailFilled]);
    assert_eq!(granted, vec![AchievementTag::EmailFilled]);
    assert_eq!(tags_of(&store, 8), vec![AchievementTag::EmailFilled]);
}

#[test]
fn grants_survive_cleared_fields() {
    let mut store = MemoryStore::new();
    store.put_profile(UserProfile::empty(9));
    store.apply_update(9, &update(Some("ken"), Some("k@x"), Some("pw"))).unwrap();
    assert_eq!(tags_of(&store, 9).len(), 4);
    store.put_profile(UserProfile::empty(9));
    store.apply_update(9, &update(None, None, None)).unwrap();
    let tags = tags_of(&store, 9);
    assert_eq!(tags.len(), 4);
    assert!(tags.contains(&AchievementTag::AllCompleted));
}

#[test]
fn unknown_user_is_not_found() {
    let store = MemoryStore::new();
    match store.get_profile_with_achievements(999) {
        Err(AppError::NotFound(_)) => {}
        _ => panic!("expected NotFound"),
    }
}

#[test]
fn update_of_unknown_user_is_not_found_and_grants_nothing() {
    let mut store = MemoryStore::new();
    store.put_profile(UserProfile::empty(1));
    match store.apply_update(2, &update(Some("a"), Some("b"), Some("c"))) {
        Err(AppError::NotFound(_)) => {}
        _ => panic!("expected NotFound"),
    }
    assert!(store.get_profile_with_achievements(2).is_err());
    assert!(tags_of(&store, 1).is_empty());
}

#[test]
fn update_then_complete_profile_scenario() {
    let mut store = MemoryStore::new();
    store.put_profile(UserProfile::empty(7));
    let p = store.apply_update(7, &update(Some("ken"), None, None)).unwrap();
    assert_eq!(p.username.as_deref(), Some("ken"));
    let tags = tags_of(&store, 7);
    assert!(tags.contains(&AchievementTag::UsernameFilled));
    assert!(!tags.contains(&AchievementTag::AllCompleted));

    store.apply_update(7, &update(None, Some("a@b.c"), Some("x"))).unwrap();
    let view = store.get_profile_with_achievements(7).unwrap();
    assert_eq!(view.profile.username.as_deref(), Some("ken"));
    assert_eq!(view.profile.email.as_deref(), Some("a@b.c"));
    assert_eq!(view.achievements.len(), 4);
    for t in [
        AchievementTag::UsernameFilled,
        AchievementTag::EmailFilled,
        AchievementTag::PasswordFilled,
        AchievementTag::AllCompleted,
    ] {
        assert!(view.achievements.contains(&t));
    }
}

#[test]
fn concurrent_updates_with_stale_snapshots_recover() {
    let mut store = MemoryStore::new();
    store.put_profile(UserProfile::empty(11));
    // Both writes land first; each request then evaluates its own stale view.
    let mut row = UserProfile::empty(11);
    update(Some("ken"), None, None).apply_to(&mut row);
    update(None, Some("k@x"), None).apply_to(&mut row);
    store.put_profile(row);
    let stale_a = profile(11, Some("ken"), None, None);
    let stale_b = profile(11, None, Some("k@x"), None);
    store.reconcile(11, &evaluate(&stale_a));
    store.reconcile(11, &evaluate(&stale_b));
    assert_eq!(tags_of(&store, 11).len(), 2);
    // A later update sees the whole row and grants what is owed.
    store.apply_update(11, &update(None, None, Some("pw"))).unwrap();
    let tags = tags_of(&store, 11);
    assert_eq!(tags.len(), 4);
    assert!(tags.contains(&AchievementTag::AllCompleted));
}

#[test]
fn missing_profile_row_renders_404_envelope() {
    let r = assemble_achievement_view(None, &vec![Some("USERNAME_FILLED".to_string())]);
    let err = match r {
        Err(e) => e,
        Ok(_) => panic!("expected an error"),
    };
    let (status, body) = err.into_response_parts();
    assert_eq!(status, 404);
    assert!(!body.success);
    assert!(body.data.is_none());
}

#[test]
fn assembled_view_skips_unnamed_records() {
    let p = profile(3, Some("u"), None, Some("s"));
    let records = vec![
        Some("EMAIL_FILLED".to_string()),
        None,
        Some("USERNAME_FILLED".to_string()),
    ];
    let v = assemble_achievement_view(Some(p), &records).unwrap();
    assert_eq!(v.id, 3);
    assert_eq!(v.username.as_deref(), Some("u"));
    assert_eq!(v.email, None);
    assert_eq!(v.secret.as_deref(), Some("s"));
    assert_eq!(v.achievements, vec!["EMAIL_FILLED".to_string(), "USERNAME_FILLED".to_string()]);
}

#[test]
fn same_update_twice_changes_nothing() {
    let mut store = MemoryStore::new();
    store.put_profile(UserProfile::empty(12));
    let u = update(Some("ken"), Some("k@x"), None);
    store.apply_update(12, &u).unwrap();
    let once = store.get_profile_with_achievements(12).unwrap();
    let again = store.apply_update(12, &u).unwrap();
    let twice = store.get_profile_with_achievements(12).unwrap();
    assert_eq!(again.username, once.profile.username);
    assert_eq!(twice.profile.email, once.profile.email);
    assert_eq!(twice.achievements, once.achievements);
    assert_eq!(twice.achievements, vec![AchievementTag::UsernameFilled, AchievementTag::EmailFilled]);
}
