use lako::auth::{
    authorize_owner, encode_token, expiry_from, resolve_current_user, seconds_from_now,
    subject_of_claims, Claims,
};
use lako::credentials::{hash_password, verify_password};
use lako::error::AuthenticationError;
use lako::mail::{confirm_email_body, confirm_email_subject};

#[test]
fn token_round_trip() {
    let token = encode_token(42, "server-secret").unwrap();
    assert_eq!(resolve_current_user(&token, "server-secret"), Ok(42));
}

#[test]
fn wrong_secret_is_rejected() {
    let token = encode_token(42, "server-secret").unwrap();
    assert_eq!(
        resolve_current_user(&token, "another-secret"),
        Err(AuthenticationError::InvalidToken)
    );
}

#[test]
fn garbage_token_is_rejected() {
    assert_eq!(
        resolve_current_user("not.a.token", "server-secret"),
        Err(AuthenticationError::InvalidToken)
    );
    assert_eq!(resolve_current_user("", "server-secret"), Err(AuthenticationError::InvalidToken));
}

#[test]
fn claims_carry_the_subject() {
    let claims = Claims::new(7, 3600);
    assert_eq!(claims.user_id(), 7);
}

#[test]
fn expiry_lies_in_the_future() {
    let exp = seconds_from_now(3600);
    let now = seconds_from_now(0);
    assert!(exp >= now);
    assert!(exp - now <= 3600);
}

#[test]
fn expiry_arithmetic_saturates() {
    assert_eq!(expiry_from(10, 5), 15);
    assert_eq!(expiry_from(u64::MAX - 3, 10), u64::MAX);
    assert_eq!(expiry_from(u64::MAX, 0), u64::MAX);
}

#[test]
fn subject_claim_mapping() {
    assert_eq!(subject_of_claims(Some(42)), Ok(42));
    assert_eq!(
        subject_of_claims(None),
        Err(lako::error::AuthenticationError::InvalidToken)
    );
    assert_eq!(
        subject_of_claims(Some(i64::MAX)),
        Err(lako::error::AuthenticationError::InvalidToken)
    );
    assert_eq!(subject_of_claims(Some(-7)), Ok(-7));
}

#[test]
fn password_hash_round_trip() {
    let hash = hash_password("correct horse").unwrap();
    assert!(verify_password("correct horse", &hash));
    assert!(!verify_password("wrong horse", &hash));
}

#[test]
fn malformed_hash_fails_closed() {
    assert!(!verify_password("anything", "not-a-bcrypt-hash"));
    assert!(!verify_password("anything", ""));
}

#[test]
fn owner_check_is_equality() {
    assert!(authorize_owner(5, 5));
    assert!(!authorize_owner(5, 6));
}

#[test]
fn confirmation_mail_carries_the_token() {
    assert_eq!(confirm_email_subject(), "Please confirm your email address");
    let body = confirm_email_body("alice", "tok123");
    assert!(body.starts_with("Hello alice!"));
    assert!(body.ends_with("https://lako.io/confirm/tok123"));
}
