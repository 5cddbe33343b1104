use kiwi::error::Error;
use kiwi::handlers::{
    check_login, constraint_error, delete_outcome, found, storage_failure, UpdateUser, User,
};
use kiwi::password::{hash_password, verify_password};

fn unprocessable(field: &str, reason: &str) -> Error {
    Error::UnprocessableEntity { errors: vec![(field.to_string(), reason.to_string())] }
}

#[test]
fn duplicate_username_cites_username() {
    let e = constraint_error("user_username_key").unwrap();
    assert_eq!(e, unprocessable("username", "username taken"));
    assert_eq!(e.status_code(), 422);
}

#[test]
fn duplicate_email_cites_email() {
    assert_eq!(constraint_error("user_email_key"), Some(unprocessable("email", "email taken")));
}

#[test]
fn duplicate_message_id_cites_message() {
    assert_eq!(
        constraint_error("message"),
        Some(unprocessable("message", "duplicate message id"))
    );
}

#[test]
fn unknown_constraint_is_not_reported() {
    assert_eq!(constraint_error("like_pkey"), None);
    assert_eq!(constraint_error(""), None);
    assert_eq!(constraint_error("user_username_keys"), None);
}

#[test]
fn delete_by_author_succeeds_and_by_other_is_not_found() {
    assert_eq!(delete_outcome(1), Ok(()));
    assert_eq!(delete_outcome(0), Err(Error::NotFound));
    assert_eq!(Error::NotFound.status_code(), 404);
}

#[test]
fn read_by_id() {
    assert_eq!(found(Some(5u32)), Ok(5));
    assert_eq!(found::<u32>(None), Err(Error::NotFound));
}

#[test]
fn empty_update_changes_nothing() {
    let none = UpdateUser { username: None, email: None, password: None, bio: None, image: None };
    assert!(none.is_empty());
    let bio = UpdateUser {
        username: None,
        email: None,
        password: None,
        bio: Some("hi".to_string()),
        image: None,
    };
    assert!(!bio.is_empty());
}

#[test]
fn new_account_has_no_bio_or_image() {
    let u = User::new_account("alice".to_string(), "a@example.com".to_string(), "t".to_string());
    assert_eq!(u.username, "alice");
    assert_eq!(u.bio, "");
    assert!(u.image.is_none());
}

#[test]
fn status_codes() {
    assert_eq!(Error::Unauthorized.status_code(), 401);
    assert_eq!(Error::Internal.status_code(), 500);
}

#[test]
fn hash_then_verify_same_password() {
    let d = hash_password("correct horse").unwrap();
    assert!(d.starts_with("$argon2id$"));
    assert!(!d.contains("correct horse"));
    assert!(verify_password("correct horse", &d));
}

#[test]
fn hash_then_verify_other_password() {
    let d = hash_password("correct horse").unwrap();
    assert!(!verify_password("battery staple", &d));
}

#[test]
fn malformed_hash_does_not_match() {
    assert!(!verify_password("x", "not a hash"));
    assert!(!verify_password("x", ""));
}

#[test]
fn login_unknown_email() {
    assert_eq!(check_login(None, "pw"), Err(unprocessable("email", "does not exist")));
}

#[test]
fn login_with_password() {
    let d = hash_password("pw").unwrap();
    assert_eq!(check_login(Some(&d), "pw"), Ok(()));
    assert_eq!(check_login(Some(&d), "nope"), Err(Error::Unauthorized));
}

#[test]
fn second_signup_with_same_username_is_refused_on_username() {
    let e = storage_failure(Some("user_username_key"));
    assert_eq!(e, unprocessable("username", "username taken"));
}

#[test]
fn other_storage_failures_are_internal() {
    assert_eq!(storage_failure(None), Error::Internal);
    assert_eq!(storage_failure(Some("like_pkey")), Error::Internal);
    assert_eq!(storage_failure(Some("user_email_key")), unprocessable("email", "email taken"));
}

#[test]
fn hash_is_self_describing_and_not_the_plaintext() {
    let d = hash_password("s3cret").unwrap();
    assert_ne!(d, "s3cret");
    assert!(argon2::PasswordHash::new(&d).is_ok());
    assert!(!verify_password("s3cret", "argon2id$v=19"));
}
