//! The decisions that the resource handlers make around their database
//! statements: which stored outcome becomes which answer.

use vstd::prelude::*;
use crate::error::Error;
use crate::password::{password_matches, verify_password};

verus! {

/// An account as its owner sees it.
pub struct User {
    pub username: String,
    pub email: String,
    pub token: String,
    pub bio: String,
    pub image: Option<String>,
}

/// A request to create an account.
pub struct UserRequest {
    pub username: String,
    pub email: String,
    pub password: String,
}

/// A request to log in.
pub struct LoginUser {
    pub email: String,
    pub password: String,
}

/// A request to change fields of the current account; `None` keeps a field.
pub struct UpdateUser {
    pub username: Option<String>,
    pub email: Option<String>,
    pub password: Option<String>,
    pub bio: Option<String>,
    pub image: Option<String>,
}

/// Name of the store's uniqueness constraint on usernames.
pub open spec fn username_key() -> Seq<char> {
    "user_username_key"@
}

/// Name of the store's uniqueness constraint on e-mail addresses.
pub open spec fn email_key() -> Seq<char> {
    "user_email_key"@
}

/// Name of the store's uniqueness constraint on message ids.
pub open spec fn message_key() -> Seq<char> {
    "message"@
}

/// Whether `e` is an `UnprocessableEntity` error with the one reason
/// `reason`, on `field`.
pub open spec fn is_unprocessable(e: Error, field: Seq<char>, reason: Seq<char>) -> bool {
    e matches Error::UnprocessableEntity { errors } && errors@.len() == 1 && errors@[0].0@ == field
        && errors@[0].1@ == reason
}

/// The answer to a statement that broke the uniqueness constraint named
/// `constraint`, where it is one that the handlers report to the caller.
pub open spec fn constraint_answer(constraint: Seq<char>, r: Option<Error>) -> bool {
    if constraint == username_key() {
        r matches Some(e) && is_unprocessable(e, "username"@, "username taken"@)
    } else if constraint == email_key() {
        r matches Some(e) && is_unprocessable(e, "email"@, "email taken"@)
    } else if constraint == message_key() {
        r matches Some(e) && is_unprocessable(e, "message"@, "duplicate message id"@)
    } else {
        r is None
    }
}

/// Whether `s` spells `lit`, character for character.
fn spells(s: &str, lit: &str) -> (r: bool)
    ensures
        r == (s@ == lit@),
{
    let a = s.to_owned();
    let b = lit.to_owned();
    a == b
}

/// The error that reports a broken uniqueness constraint, by its name;
/// `None` for a constraint that no handler reports.
pub fn constraint_error(constraint: &str) -> (r: Option<Error>)
    ensures
        constraint_answer(constraint@, r),
{
    if spells(constraint, "user_username_key") {
        Some(Error::unprocessable_entity("username", "username taken"))
    } else if spells(constraint, "user_email_key") {
        Some(Error::unprocessable_entity("email", "email taken"))
    } else if spells(constraint, "message") {
        Some(Error::unprocessable_entity("message", "duplicate message id"))
    } else {
        None
    }
}

/// The error that answers a failed statement, from the name of the
/// constraint it broke (`None` where it broke none): a reported uniqueness
/// constraint becomes its own error, any other failure an internal one.
pub fn storage_failure(constraint: Option<&str>) -> (r: Error)
    ensures
        (match constraint {
            Some(c) => if is_reported_constraint(c@) {
                constraint_answer(c@, Some(r))
            } else {
                r == Error::Internal
            },
            None => r == Error::Internal,
        }),
{
    match constraint {
        Some(c) => match constraint_error(c) {
            Some(e) => e,
            None => Error::Internal,
        },
        None => Error::Internal,
    }
}

/// Whether a broken constraint of this name is reported to the caller.
pub open spec fn is_reported_constraint(constraint: Seq<char>) -> bool {
    constraint == username_key() || constraint == email_key() || constraint == message_key()
}

/// The answer to a login: the account is looked up by e-mail, and its stored
/// hash (`None` where no account has that e-mail) is checked against the
/// password.
pub fn check_login(stored_hash: Option<&str>, password: &str) -> (r: Result<(), Error>)
    ensures
        stored_hash is None ==> (r matches Err(e) && is_unprocessable(e, "email"@, "does not exist"@)),
        stored_hash matches Some(h) ==> (r is Ok <==> password_matches(password@, h@)),
        stored_hash matches Some(h) && !password_matches(password@, h@) ==> r == Err::<(), Error>(Error::Unauthorized),
{
    match stored_hash {
        None => Err(Error::unprocessable_entity("email", "does not exist")),
        Some(h) => if verify_password(password, h) {
            Ok(())
        } else {
            Err(Error::Unauthorized)
        },
    }
}

/// The answer to a delete scoped to the caller's own records, from the
/// number of rows it removed: none removed is not found, whether the record
/// is absent or another's.
pub fn delete_outcome(rows_deleted: u64) -> (r: Result<(), Error>)
    ensures
        rows_deleted == 0 <==> r == Err::<(), Error>(Error::NotFound),
        rows_deleted > 0 <==> r is Ok,
{
    if rows_deleted == 0 {
        Err(Error::NotFound)
    } else {
        Ok(())
    }
}

/// The answer to a read by id: the row where there is one, else not found.
pub fn found<T>(row: Option<T>) -> (r: Result<T, Error>)
    ensures
        row matches Some(v) ==> r == Ok::<T, Error>(v),
        row is None ==> r == Err::<T, Error>(Error::NotFound),
{
    match row {
        Some(v) => Ok(v),
        None => Err(Error::NotFound),
    }
}

impl UpdateUser {
    /// Whether the request changes nothing.
    pub fn is_empty(&self) -> (r: bool)
        ensures
            r == (self.username is None && self.email is None && self.password is None
                && self.bio is None && self.image is None),
    {
        self.username.is_none() && self.email.is_none() && self.password.is_none()
            && self.bio.is_none() && self.image.is_none()
    }
}

impl User {
    /// The account of a new user: no bio and no image yet.
    pub fn new_account(username: String, email: String, token: String) -> (r: User)
        ensures
            r.username@ == username@,
            r.email@ == email@,
            r.token@ == token@,
            r.bio@.len() == 0,
            r.image is None,
    {
        User { username, email, token, bio: String::new(), image: None }
    }
}

} // verus!
