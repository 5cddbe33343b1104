//! Errors of the service, and the reasons an authentication is refused.

use vstd::prelude::*;

verus! {

/// An error as a caller of the service sees it.
#[derive(Debug, PartialEq, Eq)]
pub enum Error {
    /// Any failed authentication, whatever its cause.
    Unauthorized,
    /// The resource does not exist, or is not the caller's to touch.
    NotFound,
    /// The input breaks uniqueness or business rules: each entry names a
    /// field and a reason.
    UnprocessableEntity { errors: Vec<(String, String)> },
    /// A failure of the store or of the hashing subsystem.
    Internal,
}

/// Why a request was not authenticated. These kinds serve diagnostics only:
/// every one of them reaches the caller as [`Error::Unauthorized`].
#[derive(Debug, Clone, Copy, PartialEq, Eq, Structural)]
pub enum AuthError {
    MissingHeader,
    Malformed,
    WrongScheme,
    BadSignature,
    Expired,
}

/// The HTTP status code that answers `e`.
pub open spec fn status_of(e: Error) -> u16 {
    match e {
        Error::Unauthorized => 401,
        Error::NotFound => 404,
        Error::UnprocessableEntity { .. } => 422,
        Error::Internal => 500,
    }
}

/// The error that a caller sees for a refused authentication.
pub open spec fn public_error(e: AuthError) -> Error {
    Error::Unauthorized
}

impl Error {
    /// The HTTP status code that answers this error.
    pub fn status_code(&self) -> (r: u16)
        ensures
            r == status_of(*self),
    {
        match self {
            Error::Unauthorized => 401,
            Error::NotFound => 404,
            Error::UnprocessableEntity { .. } => 422,
            Error::Internal => 500,
        }
    }

    /// An `UnprocessableEntity` error with one reason, on `field`.
    pub fn unprocessable_entity(field: &str, reason: &str) -> (r: Error)
        ensures
            r matches Error::UnprocessableEntity { errors } && errors@.len() == 1 && errors@[0].0@
                == field@ && errors@[0].1@ == reason@,
    {
        let mut errors: Vec<(String, String)> = Vec::new();
        errors.push((field.to_owned(), reason.to_owned()));
        Error::UnprocessableEntity { errors }
    }
}

impl AuthError {
    /// The error that the caller sees: the same for every kind of refusal.
    pub fn to_error(&self) -> (r: Error)
        ensures
            r == public_error(*self),
    {
        Error::Unauthorized
    }
}

/// Every refusal of authentication looks the same to the caller, whatever its
/// cause: no answer tells why a token was rejected.
pub proof fn lemma_refusals_indistinguishable(a: AuthError, b: AuthError)
    ensures
        public_error(a) == public_error(b),
        status_of(public_error(a)) == 401,
{
}

} // verus!
