use chat_core::error::ApiError;
use chat_core::pass::{same_bytes, Password};
use chat_core::request::Request;
use chat_core::session::Login;

#[test]
fn hash_then_verify_round_trip() {
    let p = Password::hash("correct horse").unwrap();
    assert!(p.clone().is_valid("correct horse"));
    assert!(!p.is_valid("correct horsf"));
}

#[test]
fn two_hashes_of_one_password_differ() {
    let a = Password::hash("same").unwrap();
    let b = Password::hash("same").unwrap();
    assert_eq!(a.salt.len(), 32);
    assert_eq!(b.salt.len(), 32);
    assert_ne!(a.salt, b.salt);
    assert_ne!(a.hash, b.hash);
}

#[test]
fn with_salt_is_deterministic_and_not_the_input() {
    let salt = b"saltsaltsalt".to_vec();
    let a = Password::with_salt("pw", salt.clone());
    let b = Password::with_salt("pw", salt.clone());
    assert_eq!(a.hash, b.hash);
    assert_eq!(a.salt, salt);
    assert_eq!(a.hash.len(), 32);
    assert_ne!(a.hash, b"pw".to_vec());
    assert_ne!(a.hash, salt);
}

#[test]
fn short_salt_accepts_nothing() {
    let p = Password { hash: vec![0; 32], salt: vec![1; 4] };
    assert!(!p.is_valid("anything"));
}

#[test]
fn same_bytes_compares_whole_vectors() {
    assert!(same_bytes(&vec![1, 2, 3], &vec![1, 2, 3]));
    assert!(!same_bytes(&vec![1, 2, 3], &vec![1, 2, 4]));
    assert!(!same_bytes(&vec![1, 2], &vec![1, 2, 3]));
    assert!(same_bytes(&vec![], &vec![]));
}

#[test]
fn verify_handler_authenticates_on_the_right_password() {
    let stored = Password::hash("correct").unwrap();
    let text = r#"{"function": "VERIFY USERS", "users": [{"email": "alice@example.com", "password": "correct"}]}"#;
    let mut login = Login::new();
    let pending = Request::from_json(text).unwrap().verify_users().unwrap();
    let resp = pending.complete(&mut login, stored.clone()).unwrap();
    assert_eq!(resp.status, 1);
    assert!(resp.users.is_none() && resp.messages.is_none() && resp.conversations.is_none());
    assert!(login.is_authenticated());
    assert_eq!(login.email, "alice@example.com");

    let wrong = r#"{"function": "VERIFY USERS", "users": [{"email": "alice@example.com", "password": "wrong"}]}"#;
    let mut login = Login::new();
    let pending = Request::from_json(wrong).unwrap().verify_users().unwrap();
    assert_eq!(pending.complete(&mut login, stored).err(), Some(ApiError::Unauthorized));
    assert!(!login.is_authenticated());
}

#[test]
fn login_starts_unauthenticated() {
    let mut login = Login::new();
    assert!(!login.is_authenticated());
    assert_eq!(login.email, "");
    login.authenticate("x@y.z".to_string());
    login.authenticate("x@y.z".to_string());
    assert!(login.is_authenticated());
    assert_eq!(login.email, "x@y.z");
}

#[test]
fn error_kinds() {
    assert!(ApiError::InvalidRequest(chat_core::error::Problem::NotJson).is_invalid_request());
    assert!(!ApiError::Unauthorized.is_invalid_request());
}
