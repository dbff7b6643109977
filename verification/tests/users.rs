use lako::error::AuthenticationError;
use lako::kinds::Role;
use lako::store::Store;

const NOW: i64 = 1_600_000_000;

#[test]
fn register_and_authenticate() {
    let mut store = Store::new();
    let (user, _token) = store
        .register_user("alice", "alice@example.com", "wonderland", Role::Customer, NOW)
        .unwrap();
    assert_eq!(user.id, 1);
    assert_eq!(user.username, "alice");
    assert_eq!(user.last_sign_in_at, None);

    let signed_in = store.authenticate("alice", "wonderland", NOW + 5).unwrap();
    assert_eq!(signed_in.id, user.id);
    assert_eq!(signed_in.last_sign_in_at, Some(NOW + 5));
}

#[test]
fn wrong_password_and_unknown_user_look_alike() {
    let mut store = Store::new();
    store
        .register_user("alice", "alice@example.com", "wonderland", Role::Customer, NOW)
        .unwrap();

    let wrong_password = store.authenticate("alice", "not-the-password", NOW).unwrap_err();
    let unknown_user = store.authenticate("nobody", "not-the-password", NOW).unwrap_err();
    assert_eq!(wrong_password, AuthenticationError::IncorrectPassword);
    assert_eq!(unknown_user, AuthenticationError::IncorrectPassword);
    assert_eq!(wrong_password, unknown_user);
}

#[test]
fn lookup_is_case_insensitive() {
    let mut store = Store::new();
    store
        .register_user("Alice", "alice@example.com", "wonderland", Role::Customer, NOW)
        .unwrap();
    assert!(store.authenticate("aLiCe", "wonderland", NOW).is_ok());
}

#[test]
fn duplicate_username_refused_despite_case() {
    let mut store = Store::new();
    store
        .register_user("Alice", "alice@example.com", "wonderland", Role::Customer, NOW)
        .unwrap();
    let err = store
        .register_user("alice", "other@example.com", "password123", Role::Customer, NOW)
        .unwrap_err();
    assert_eq!(err, AuthenticationError::UsernameTaken);
}

#[test]
fn empty_credentials_rejected() {
    let mut store = Store::new();
    let err = store.register_user("", "a@example.com", "pw", Role::Customer, NOW).unwrap_err();
    assert_eq!(err, AuthenticationError::NoUsernameSet);
    let err = store.register_user("bob", "a@example.com", "", Role::Customer, NOW).unwrap_err();
    assert_eq!(err, AuthenticationError::NoPasswordSet);
}

#[test]
fn registration_input_rules() {
    assert!(Store::registration_input_ok("alice", "wonderland", "wonderland"));
    assert!(!Store::registration_input_ok("bob", "wonderland", "wonderland"));
    assert!(!Store::registration_input_ok("alice", "short", "short"));
    assert!(!Store::registration_input_ok("alice", "wonderland", "wonderlane"));
}

#[test]
fn email_confirmation_scenario() {
    // Register alice; her email starts unverified with a token T.
    let mut store = Store::new();
    let (user, token) = store
        .register_user("alice", "alice@example.com", "wonderland", Role::Customer, NOW)
        .unwrap();
    assert_eq!(store.user_verified_email(user.id), None);
    assert_eq!(store.user_email(user.id).as_deref(), Some("alice@example.com"));

    // Confirming with T succeeds; a second confirmation with the same
    // T succeeds again; a bogus token reports failure.
    assert!(store.verify_email_with_token(&token));
    assert!(store.verify_email_with_token(&token));
    assert!(!store.verify_email_with_token("bogus-token"));

    // Once verified, the flag never goes back.
    assert_eq!(store.user_verified_email(user.id).as_deref(), Some("alice@example.com"));
}

#[test]
fn regenerated_token_still_confirms() {
    let mut store = Store::new();
    let (user, _old_token) = store
        .register_user("alice", "alice@example.com", "wonderland", Role::Customer, NOW)
        .unwrap();
    let (recipient, username, new_token) =
        store.regenerate_email_token_and_send(user.id, NOW + 10).unwrap();
    assert_eq!(recipient, "alice@example.com");
    assert_eq!(username, "alice");
    assert!(store.verify_email_with_token(&new_token));
    assert!(store.regenerate_email_token_and_send(999, NOW).is_none());
}

#[test]
fn verification_survives_token_regeneration() {
    let mut store = Store::new();
    let (user, token) = store
        .register_user("alice", "alice@example.com", "wonderland", Role::Customer, NOW)
        .unwrap();
    assert!(store.verify_email_with_token(&token));
    store.regenerate_email_token_and_send(user.id, NOW + 10).unwrap();
    assert!(store.user_verified_email(user.id).is_some());
}

#[test]
fn find_and_update_user() {
    let mut store = Store::new();
    let (user, _) = store
        .register_user("alice", "alice@example.com", "wonderland", Role::Customer, NOW)
        .unwrap();
    assert_eq!(store.find_user(user.id).unwrap().username, "alice");
    assert!(store.find_user(42).is_none());

    let changes = lako::models::UserChanges {
        role: None,
        profile_name: Some("Alice L.".to_string()),
        profile_image: None,
    };
    let updated = store.update_user(user.id, changes, NOW + 20).unwrap();
    assert_eq!(updated.profile_name, "Alice L.");
    assert_eq!(updated.role, Role::Customer);
    assert_eq!(updated.updated_at, NOW + 20);
}
