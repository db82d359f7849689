use chirper::error::AuthError;
use chirper::hash::{hash_password, verify_password};

#[test]
fn hash_then_verify_same_password() {
    let record = hash_password("correct horse battery staple").unwrap();
    assert!(record.len() > 0);
    assert_eq!(
        verify_password(&record, "correct horse battery staple"),
        Ok(true)
    );
}

#[test]
fn repeated_hashing_yields_distinct_records() {
    let first = hash_password("pw1").unwrap();
    let second = hash_password("pw1").unwrap();
    assert_ne!(first, second);
}

#[test]
fn hash_record_is_not_the_plaintext() {
    let record = hash_password("pw1").unwrap();
    assert_ne!(record, "pw1");
}

#[test]
fn verify_rejects_wrong_password() {
    let record = hash_password("pw1").unwrap();
    assert_eq!(verify_password(&record, "pw2"), Ok(false));
    assert_eq!(verify_password(&record, ""), Ok(false));
}

#[test]
fn verify_empty_password_roundtrip() {
    let record = hash_password("").unwrap();
    assert_eq!(verify_password(&record, ""), Ok(true));
    assert_eq!(verify_password(&record, "x"), Ok(false));
}

#[test]
fn malformed_record_is_hashing_error_not_boolean() {
    assert_eq!(
        verify_password("not an encoded record", "pw1"),
        Err(AuthError::Hashing)
    );
    assert_eq!(verify_password("", "pw1"), Err(AuthError::Hashing));
}

#[test]
fn error_statuses_and_messages() {
    assert_eq!(AuthError::InvalidCredentials.status_code(), 401);
    assert_eq!(AuthError::Unauthorized.status_code(), 401);
    assert_eq!(AuthError::Forbidden.status_code(), 403);
    assert_eq!(AuthError::Conflict.status_code(), 409);
    assert_eq!(AuthError::NotFound.status_code(), 404);
    assert_eq!(AuthError::Hashing.status_code(), 500);
    assert_eq!(AuthError::SessionCorrupt.status_code(), 500);
    assert_eq!(AuthError::InvalidCredentials.message(), "Credentials not valid");
    assert_eq!(AuthError::Unauthorized.message(), "Unauthorized");
}
