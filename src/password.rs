//! Salted, memory-hard password hashing.

use vstd::prelude::*;
use argon2::password_hash::SaltString;
use argon2::{Argon2, PasswordHash};
use crate::error::Error;

verus! {

/// Whether Argon2 accepts `password` against the encoded hash `digest`, with
/// the algorithm, parameters and salt that `digest` names. False where
/// `digest` is not a valid encoded hash.
pub uninterp spec fn argon2_accepts(password: Seq<char>, digest: Seq<char>) -> bool;

/// Whether `digest` is a stored hash of `password`.
pub open spec fn password_matches(password: Seq<char>, digest: Seq<char>) -> bool {
    argon2_accepts(password, digest)
}

/// Relies on `SaltString::generate` with the thread's random generator and
/// `PasswordHash::generate` with the default Argon2 instance (Argon2id): on
/// success, the encoded hash is a PHC string `$argon2id$...` that verifies
/// against the same password. A generated salt is 16 bytes, of an accepted
/// length, and Argon2 refuses only passwords over `MAX_PWD_LEN` (2^32 - 1)
/// bytes; a password of at most 2^30 - 1 characters is at most 2^32 - 4
/// bytes. The salt is random: nothing else is known of the digest.
#[verifier::external_body]
fn argon2_hash(password: &str) -> (r: Option<String>)
    ensures
        r matches Some(d) ==> argon2_accepts(password@, d@),
        r matches Some(d) ==> d@.len() > 10 && d@.subrange(0, 10) == "$argon2id$"@,
        password@.len() <= 0x3fff_ffff ==> r is Some,
{
    let salt = SaltString::generate(rand::thread_rng());
    PasswordHash::generate(Argon2::default(), password, &salt).ok().map(|h| h.to_string())
}

/// Relies on `PasswordHash::new` and `PasswordHash::verify_password` with the
/// default Argon2 instance: true exactly when the hash parses and the
/// password verifies against it. `PasswordHash::parse` refuses an empty
/// string and one that does not begin with the `$` separator.
#[verifier::external_body]
fn argon2_verify(password: &str, digest: &str) -> (r: bool)
    ensures
        r == argon2_accepts(password@, digest@),
        digest@.len() == 0 || digest@[0] != '$' ==> !r,
{
    match PasswordHash::new(digest) {
        Ok(h) => h.verify_password(&[&Argon2::default()], password).is_ok(),
        Err(_) => false,
    }
}

/// Hashes `password` with a fresh random salt. The result is an encoded hash
/// that names algorithm, parameters and salt, and that verifies against
/// `password`. It is owed for every password of fewer than 2^30 characters.
pub fn hash_password(password: &str) -> (r: Result<String, Error>)
    ensures
        r matches Ok(d) ==> password_matches(password@, d@),
        r matches Ok(d) ==> d@.len() > 10 && d@.subrange(0, 10) == "$argon2id$"@,
        password@.len() <= 0x3fff_ffff ==> r is Ok,
        r matches Err(e) ==> e == Error::Internal,
{
    match argon2_hash(password) {
        Some(d) => Ok(d),
        None => Err(Error::Internal),
    }
}

/// Checks `password` against a stored hash. A malformed hash does not match.
pub fn verify_password(password: &str, password_hash: &str) -> (r: bool)
    ensures
        r == password_matches(password@, password_hash@),
        password_hash@.len() == 0 || password_hash@[0] != '$' ==> !r,
{
    argon2_verify(password, password_hash)
}

} // verus!
