//! Authentication of a request from its `Authorization` header.

use vstd::prelude::*;
use vstd::string::StrSliceExecFns;
use vstd::utf8::{decode_utf8, valid_utf8};
use crate::config::{key_of, Config};
use crate::error::{public_error, AuthError, Error};
use crate::token::{
    decode_at, decoded, issue, issued, issued_by_clock, lemma_issued_token_decodes, now_unix,
    CLOCK_BOUND, SESSION_LENGTH_SECS,
};

verus! {

/// An authenticated identity.
#[derive(Debug, Clone, Copy, PartialEq, Eq, Structural)]
pub struct AuthUser {
    /// The identity, as the 128 bits of its UUID.
    pub user_id: u128,
}

/// `Token `, the scheme that the header must name.
pub open spec fn scheme_prefix() -> Seq<char> {
    seq!['T', 'o', 'k', 'e', 'n', ' ']
}

/// The bytes of the header value, where there is one.
pub open spec fn header_view(header: Option<&[u8]>) -> Option<Seq<u8>> {
    match header {
        Some(h) => Some(h@),
        None => None,
    }
}

/// What authenticating a request with the header value `header` (absent
/// where `None`) gives with `key` at Unix time `now`.
pub open spec fn authenticated(key: Seq<u8>, header: Option<Seq<u8>>, now: int) -> Result<AuthUser, AuthError> {
    match header {
        None => Err(AuthError::MissingHeader),
        Some(h) => if !valid_utf8(h) {
            Err(AuthError::Malformed)
        } else {
            let text = decode_utf8(h);
            if !(text.len() >= 6 && text.subrange(0, 6) == scheme_prefix()) {
                Err(AuthError::WrongScheme)
            } else {
                match decoded(key, text.subrange(6, text.len() as int), now) {
                    Ok(c) => Ok(AuthUser { user_id: c.user_id }),
                    Err(e) => Err(e),
                }
            }
        },
    }
}

/// Relies on `String::from_utf8`: the text where the bytes are valid UTF-8.
#[verifier::external_body]
fn utf8_text(b: &[u8]) -> (r: Option<String>)
    ensures
        r is Some <==> valid_utf8(b@),
        r matches Some(s) ==> s@ == decode_utf8(b@),
{
    String::from_utf8(b.to_vec()).ok()
}

/// Whether `s` starts with the scheme prefix.
fn has_scheme(s: &str) -> (r: bool)
    ensures
        r == (s@.len() >= 6 && s@.subrange(0, 6) == scheme_prefix()),
{
    let n = s.unicode_len();
    if n < 6 {
        return false;
    }
    let ok = s.get_char(0) == 'T' && s.get_char(1) == 'o' && s.get_char(2) == 'k' && s.get_char(3)
        == 'e' && s.get_char(4) == 'n' && s.get_char(5) == ' ';
    proof {
        if ok {
            assert(s@.subrange(0, 6) =~= scheme_prefix());
        } else {
            if s@.subrange(0, 6) == scheme_prefix() {
                assert(s@.subrange(0, 6)[0] == 'T');
                assert(s@.subrange(0, 6)[1] == 'o');
                assert(s@.subrange(0, 6)[2] == 'k');
                assert(s@.subrange(0, 6)[3] == 'e');
                assert(s@.subrange(0, 6)[4] == 'n');
                assert(s@.subrange(0, 6)[5] == ' ');
            }
        }
    }
    ok
}

/// Authenticates a request from its `Authorization` header value, at Unix
/// time `now`. A missing header, bytes that are not UTF-8, a scheme other
/// than `Token `, and a token that does not decode are each refused.
pub fn authenticate_at(key: &[u8], header: Option<&[u8]>, now: i64) -> (r: Result<AuthUser, AuthError>)
    ensures
        r == authenticated(key@, header_view(header), now as int),
{
    let h = match header {
        None => return Err(AuthError::MissingHeader),
        Some(h) => h,
    };
    let text = match utf8_text(h) {
        None => return Err(AuthError::Malformed),
        Some(t) => t,
    };
    let s = text.as_str();
    if !has_scheme(s) {
        return Err(AuthError::WrongScheme);
    }
    let n = s.unicode_len();
    let token = s.substring_char(6, n);
    match decode_at(key, token, now) {
        Ok(c) => Ok(AuthUser { user_id: c.user_id }),
        Err(e) => Err(e),
    }
}

/// Authenticates a request with the configured key at the current time.
pub fn authenticate(config: &Config, header: Option<&[u8]>) -> (r: Result<AuthUser, AuthError>)
    ensures
        exists|now: i64| -CLOCK_BOUND < now < CLOCK_BOUND && r == authenticated(
            key_of(*config),
            header_view(header),
            now as int,
        ),
{
    let now = now_unix();
    let key = config.hmac_key.as_str().as_bytes();
    assert(key@ == key_of(*config));
    let r = authenticate_at(key, header, now);
    assert(r == authenticated(key_of(*config), header_view(header), now as int));
    r
}

impl AuthUser {
    /// A session token for this identity, expiring one session length from
    /// now.
    pub fn to_jwt(&self, config: &Config) -> (r: Option<String>)
        ensures
            r matches Some(t) && issued_by_clock(key_of(*config), self.user_id, t@),
    {
        let key = config.hmac_key.as_str().as_bytes();
        assert(key@ == key_of(*config));
        issue(key, self.user_id)
    }
}

/// A missing header, a header that is not UTF-8, one without the `Token `
/// scheme, and one whose token does not decode are all refused, and every
/// refusal shows the caller the same unauthorized error.
pub proof fn lemma_refusals_alike(key: Seq<u8>, h1: Option<Seq<u8>>, h2: Option<Seq<u8>>, now: int)
    requires
        authenticated(key, h1, now) is Err,
        authenticated(key, h2, now) is Err,
    ensures
        authenticated(key, None, now) == Err::<AuthUser, AuthError>(AuthError::MissingHeader),
        h1 matches Some(b) && !valid_utf8(b) ==> authenticated(key, h1, now) == Err::<
            AuthUser,
            AuthError,
        >(AuthError::Malformed),
        h1 matches Some(b) && valid_utf8(b) && !(decode_utf8(b).len() >= 6 && decode_utf8(b).subrange(
            0,
            6,
        ) == scheme_prefix()) ==> authenticated(key, h1, now) == Err::<AuthUser, AuthError>(
            AuthError::WrongScheme,
        ),
        public_error(authenticated(key, h1, now)->Err_0) == public_error(
            authenticated(key, h2, now)->Err_0,
        ),
        public_error(authenticated(key, h1, now)->Err_0) == Error::Unauthorized,
{
}

/// A header that carries an issued token under the `Token ` scheme
/// authenticates, until the token expires, as the identity it was issued for.
pub proof fn lemma_issued_token_authenticates(key: Seq<u8>, user_id: u128, now: int, token: Seq<char>, header: Seq<u8>, at: int)
    requires
        issued(key, user_id, now, token),
        i64::MIN <= now <= i64::MAX - SESSION_LENGTH_SECS,
        at <= now + SESSION_LENGTH_SECS,
        valid_utf8(header),
        decode_utf8(header) == scheme_prefix() + token,
    ensures
        authenticated(key, Some(header), at) == Ok::<AuthUser, AuthError>(AuthUser { user_id }),
{
    let text = decode_utf8(header);
    assert(text.subrange(0, 6) =~= scheme_prefix());
    assert(text.subrange(6, text.len() as int) =~= token);
    lemma_issued_token_decodes(key, user_id, now, token, at);
}

} // verus!
