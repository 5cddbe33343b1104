//! Signed, expiring session tokens.
//!
//! A token is a compact signed-claims string (header, payload, signature)
//! under HMAC with SHA-384. Its claims are the JSON object
//! `{"user_id":"<hyphenated uuid>","exp":<unix seconds>}`, which this module
//! writes and reads itself; the signing and checking of the envelope is the
//! `jwt` crate's.

use vstd::prelude::*;
use hmac::{Hmac, Mac};
use jwt::{SignWithKey, VerifyWithKey};
use serde_json::value::RawValue;
use sha2::Sha384;
use uuid::Uuid;
use crate::decimal::{dec_int, lemma_dec_int_injective, render_i64};
use crate::error::AuthError;

verus! {

/// How long a session lasts: two weeks, in seconds.
pub const SESSION_LENGTH_SECS: i64 = 1209600;

/// The claims that a token carries.
#[derive(Debug, Clone, Copy, PartialEq, Eq, Structural)]
pub struct SessionClaims {
    /// The identity, as the 128 bits of its UUID.
    pub user_id: u128,
    /// Unix time in seconds after which the token is refused.
    pub exp: i64,
}

/// Why the envelope of a token was refused.
#[derive(Debug, Clone, Copy, PartialEq, Eq, Structural)]
pub enum JwtFault {
    /// The token is not three well-formed parts.
    Malformed,
    /// The signature does not match the header and payload.
    BadSignature,
}

/// The lowercase hexadecimal digit of `n < 16`.
pub open spec fn hex_digit(n: u128) -> u8 {
    if n < 10 { (48 + n) as u8 } else { (87 + n) as u8 }
}

/// The hyphenated lowercase text of the UUID whose bits are `id`: 32 hex
/// digits, most significant first, in groups of 8-4-4-4-12.
pub open spec fn uuid_hyphenated(id: u128) -> Seq<u8> {
    Seq::new(
        36,
        |i: int|
            if i == 8 || i == 13 || i == 18 || i == 23 {
                45u8
            } else {
                let k = if i < 8 { i } else if i < 13 { i - 1 } else if i < 18 { i - 2 } else if i
                    < 23 { i - 3 } else { i - 4 };
                hex_digit((id >> ((4 * (31 - k)) as u128)) & 15)
            },
    )
}

/// What `Uuid::try_parse_ascii` reads from `text`, as 128 bits.
pub uninterp spec fn uuid_value(text: Seq<u8>) -> Option<u128>;

/// The value of a hexadecimal digit of either case.
pub open spec fn hex_value(b: u8) -> Option<nat> {
    if 48 <= b <= 57 {
        Some((b - 48) as nat)
    } else if 97 <= b <= 102 {
        Some((b - 87) as nat)
    } else if 65 <= b <= 70 {
        Some((b - 55) as nat)
    } else {
        None
    }
}

/// The `k`-th hex digit of a hyphenated UUID text, skipping the hyphens.
pub open spec fn hyphenated_digit(text: Seq<u8>, k: int) -> u8 {
    text[if k < 8 { k } else if k < 12 { k + 1 } else if k < 16 { k + 2 } else if k < 20 { k + 3 } else { k + 4 }]
}

/// The number that the first `k` hex digits of a hyphenated UUID text denote.
pub open spec fn hyphenated_prefix_value(text: Seq<u8>, k: nat) -> nat
    decreases k,
{
    if k == 0 {
        0
    } else {
        hyphenated_prefix_value(text, (k - 1) as nat) * 16 + hex_value(
            hyphenated_digit(text, k - 1),
        ).unwrap_or(0)
    }
}

/// The bits that a 36-byte hyphenated UUID text spells: hyphens at 8, 13, 18
/// and 23, and hex digits of either case everywhere else.
pub open spec fn hyphenated_value(text: Seq<u8>) -> Option<u128> {
    if text.len() == 36 && text[8] == 45u8 && text[13] == 45u8 && text[18] == 45u8 && text[23]
        == 45u8 && forall|k: int| 0 <= k < 32 ==> (#[trigger] hex_value(hyphenated_digit(text, k))) is Some {
        Some(hyphenated_prefix_value(text, 32) as u128)
    } else {
        None
    }
}

/// The token that the `jwt` crate signs for the claims JSON `claims` under
/// HMAC-SHA-384 with `key`, with the default header.
pub uninterp spec fn jwt_signed(key: Seq<u8>, claims: Seq<u8>) -> Seq<char>;

/// What the `jwt` crate makes of `token` under HMAC-SHA-384 with `key`: the
/// claims JSON where the envelope is sound and the signature matches.
pub uninterp spec fn jwt_opened(key: Seq<u8>, token: Seq<char>) -> Result<Seq<u8>, JwtFault>;

/// The bytes of an opened token's claims, or the fault.
pub open spec fn opened_view(r: Result<Vec<u8>, JwtFault>) -> Result<Seq<u8>, JwtFault> {
    match r {
        Ok(c) => Ok(c@),
        Err(f) => Err(f),
    }
}

/// Whether `c` begins with `{` and ends with `}`.
pub open spec fn braced(c: Seq<u8>) -> bool {
    c.len() >= 2 && c[0] == 123u8 && c[c.len() - 1] == 125u8
}

/// Whether `token` opens under `key` to the claims JSON `claims`.
pub open spec fn opens_to(key: Seq<u8>, token: Seq<char>, claims: Seq<u8>) -> bool {
    jwt_opened(key, token) == Ok::<Seq<u8>, JwtFault>(claims)
}

/// What `serde_json` reads from the claims JSON `c`: the text of its
/// `user_id` string and its `exp` integer.
pub uninterp spec fn json_claims(c: Seq<u8>) -> Option<(Seq<u8>, i64)>;

/// Whether `u` can stand between the quotes of a JSON string as it is:
/// printable ASCII other than `"` and `\`.
pub open spec fn plain_text(u: Seq<u8>) -> bool {
    forall|i: int| 0 <= i < u.len() ==> 32 <= #[trigger] u[i] <= 126 && u[i] != 34 && u[i] != 92
}

/// The number of `.` separators in `s`.
pub open spec fn dot_count(s: Seq<char>) -> nat
    decreases s.len(),
{
    if s.len() == 0 {
        0
    } else {
        dot_count(s.drop_last()) + if s.last() == '.' { 1nat } else { 0nat }
    }
}

/// `{"user_id":"`
pub open spec fn claims_prefix() -> Seq<u8> {
    seq![123u8, 34, 117, 115, 101, 114, 95, 105, 100, 34, 58, 34]
}

/// `","exp":`
pub open spec fn claims_middle() -> Seq<u8> {
    seq![34u8, 44, 34, 101, 120, 112, 34, 58]
}

/// The claims JSON for the identity text `uid` and the expiry `exp`.
pub open spec fn claims_text(uid: Seq<u8>, exp: int) -> Seq<u8> {
    claims_prefix() + uid + claims_middle() + dec_int(exp) + seq![125u8]
}

/// What decoding `token` with `key` at Unix time `now` gives: the envelope
/// and signature are checked first, then the claims are read, then the
/// expiry is compared with `now`.
pub open spec fn decoded(key: Seq<u8>, token: Seq<char>, now: int) -> Result<SessionClaims, AuthError> {
    match jwt_opened(key, token) {
        Err(JwtFault::Malformed) => Err(AuthError::Malformed),
        Err(JwtFault::BadSignature) => Err(AuthError::BadSignature),
        Ok(c) => match json_claims(c) {
            None => Err(AuthError::Malformed),
            Some((u, e)) => match uuid_value(u) {
                None => Err(AuthError::Malformed),
                Some(id) => if e < now {
                    Err(AuthError::Expired)
                } else {
                    Ok(SessionClaims { user_id: id, exp: e })
                },
            },
        },
    }
}

/// Whether `token` is the token issued with `key` for `user_id` at Unix time
/// `now`: signed over the claims for that identity and an expiry one session
/// length later, opening again to those claims, which read back as written,
/// with an identity text that reads back as `user_id`.
pub open spec fn issued(key: Seq<u8>, user_id: u128, now: int, token: Seq<char>) -> bool {
    let claims = claims_text(uuid_hyphenated(user_id), now + SESSION_LENGTH_SECS);
    &&& token == jwt_signed(key, claims)
    &&& opens_to(key, token, claims)
    &&& json_claims(claims) == Some((uuid_hyphenated(user_id), (now + SESSION_LENGTH_SECS) as i64))
    &&& uuid_value(uuid_hyphenated(user_id)) == Some(user_id)
}

/// Bound on the magnitude of any Unix time the clock gives.
pub const CLOCK_BOUND: i64 = 100_000_000_000_000;

/// Relies on `Uuid::from_u128` and its hyphenated lowercase text; and on
/// `Uuid::try_parse_ascii` reading that text back to the same bits.
#[verifier::external_body]
fn identity_text(id: u128) -> (r: Vec<u8>)
    ensures
        r@ == uuid_hyphenated(id),
        uuid_value(r@) == Some(id),
{
    Uuid::from_u128(id).hyphenated().to_string().into_bytes()
}

/// Relies on `Uuid::try_parse_ascii`: the bits of the UUID that `text` spells
/// (`Uuid::from_bytes` of the digits, most significant first). A 36-byte
/// text is read only in the hyphenated form.
#[verifier::external_body]
fn uuid_parse(text: &[u8]) -> (r: Option<u128>)
    ensures
        r == uuid_value(text@),
        text@.len() == 36 ==> r == hyphenated_value(text@),
{
    Uuid::try_parse_ascii(text).ok().map(|u| u.as_u128())
}

/// Relies on `SignWithKey::sign_with_key` of the `jwt` crate with an
/// HMAC-SHA-384 key, the claims passed through verbatim as raw JSON
/// (`RawValue::from_string`, which keeps a text with no surrounding
/// whitespace as it is): on success the token opens again, under the same
/// key, to the same claims where they are a JSON object's text. HMAC takes
/// a key of any length, `RawValue::from_string` fails only on text that is
/// not JSON, and signing then cannot fail: session claims are always signed.
#[verifier::external_body]
fn jwt_sign(key: &[u8], claims: &[u8]) -> (r: Option<String>)
    ensures
        (exists|id: u128, e: int| #[trigger] claims_text(uuid_hyphenated(id), e) == claims@)
            ==> r is Some,
        r matches Some(t) ==> t@ == jwt_signed(key@, claims@),
        r matches Some(t) ==> (braced(claims@) ==> opens_to(key@, t@, claims@)),
{
    let hmac = Hmac::<Sha384>::new_from_slice(key).ok()?;
    let json = String::from_utf8(claims.to_vec()).ok()?;
    let raw = RawValue::from_string(json).ok()?;
    raw.sign_with_key(&hmac).ok()
}

/// Relies on `VerifyWithKey::verify_with_key` of the `jwt` crate with an
/// HMAC-SHA-384 key, the claims read as raw JSON. A MAC that does not match,
/// or a header naming another algorithm, is a bad signature; every other
/// failure is a malformed token. A token is split on `.` first: one without
/// exactly three parts is malformed.
#[verifier::external_body]
fn jwt_open(key: &[u8], token: &str) -> (r: Result<Vec<u8>, JwtFault>)
    ensures
        opened_view(r) == jwt_opened(key@, token@),
        dot_count(token@) != 2 ==> (r matches Err(JwtFault::Malformed)),
{
    let hmac = match Hmac::<Sha384>::new_from_slice(key) {
        Ok(h) => h,
        Err(_) => return Err(JwtFault::Malformed),
    };
    let opened: Result<Box<RawValue>, jwt::Error> = token.verify_with_key(&hmac);
    match opened {
        Ok(raw) => Ok(raw.get().as_bytes().to_vec()),
        Err(jwt::Error::InvalidSignature) => Err(JwtFault::BadSignature),
        Err(jwt::Error::RustCryptoMac(_)) => Err(JwtFault::BadSignature),
        Err(jwt::Error::AlgorithmMismatch(_, _)) => Err(JwtFault::BadSignature),
        Err(_) => Err(JwtFault::Malformed),
    }
}

/// Relies on `serde_json::from_slice` to a `Value`, then `Value::get` with
/// `as_str` for `user_id` and with `as_i64` for `exp`: any JSON layout of an
/// object with those members is read. The claims text this module writes,
/// with an identity text that needs no escaping, is read back as written.
#[verifier::external_body]
fn read_claims(c: &[u8]) -> (r: Option<(Vec<u8>, i64)>)
    ensures
        claims_view(r) == json_claims(c@),
        reads_as_written(c@, claims_view(r)),
{
    let v: serde_json::Value = serde_json::from_slice(c).ok()?;
    let user_id = v.get("user_id")?.as_str()?;
    let exp = v.get("exp")?.as_i64()?;
    Some((user_id.as_bytes().to_vec(), exp))
}

/// Whether `r` is what a claims text written by this module reads as, where
/// `c` is one with an identity text that needs no escaping.
pub open spec fn reads_as_written(c: Seq<u8>, r: Option<(Seq<u8>, i64)>) -> bool {
    forall|u: Seq<u8>, e: i64|
        #[trigger] claims_text(u, e as int) == c && plain_text(u) ==> r == Some((u, e))
}

/// The identity text and expiry of read claims, as plain values.
pub open spec fn claims_view(r: Option<(Vec<u8>, i64)>) -> Option<(Seq<u8>, i64)> {
    match r {
        Some((u, e)) => Some((u@, e)),
        None => None,
    }
}

/// Relies on `OffsetDateTime::now_utc` of the `time` crate: the current Unix
/// time in seconds. Its dates stop at year 9999 (999,999 with `large-dates`),
/// far inside the bound stated.
#[verifier::external_body]
pub(crate) fn now_unix() -> (r: i64)
    ensures
        -CLOCK_BOUND < r < CLOCK_BOUND,
{
    time::OffsetDateTime::now_utc().unix_timestamp()
}

/// Appends the bytes of `s` to `out`.
fn push_all(out: &mut Vec<u8>, s: &[u8])
    ensures
        final(out)@ == old(out)@ + s@,
{
    let mut i: usize = 0;
    while i < s.len()
        invariant
            i <= s@.len(),
            out@ == old(out)@ + s@.subrange(0, i as int),
        decreases s@.len() - i,
    {
        out.push(s[i]);
        i = i + 1;
        proof {
            assert(s@.subrange(0, i as int) =~= s@.subrange(0, i - 1).push(s@[i - 1]));
        }
    }
    proof {
        assert(s@.subrange(0, s@.len() as int) =~= s@);
    }
}

/// Appends the opening of the claims object, up to the identity text.
fn append_prefix(out: &mut Vec<u8>)
    ensures
        final(out)@ == old(out)@ + claims_prefix(),
{
    out.push(123u8);
    out.push(34u8);
    out.push(117u8);
    out.push(115u8);
    out.push(101u8);
    out.push(114u8);
    out.push(95u8);
    out.push(105u8);
    out.push(100u8);
    out.push(34u8);
    out.push(58u8);
    out.push(34u8);
    proof {
        assert(final(out)@ =~= old(out)@ + claims_prefix());
    }
}

/// Appends what stands between the identity text and the expiry.
fn append_middle(out: &mut Vec<u8>)
    ensures
        final(out)@ == old(out)@ + claims_middle(),
{
    out.push(34u8);
    out.push(44u8);
    out.push(34u8);
    out.push(101u8);
    out.push(120u8);
    out.push(112u8);
    out.push(34u8);
    out.push(58u8);
    proof {
        assert(final(out)@ =~= old(out)@ + claims_middle());
    }
}

/// The claims JSON for the identity text `uid` and the expiry `exp`.
pub fn claims_json(uid: &[u8], exp: i64) -> (r: Vec<u8>)
    ensures
        r@ == claims_text(uid@, exp as int),
{
    let mut out: Vec<u8> = Vec::new();
    append_prefix(&mut out);
    push_all(&mut out, uid);
    append_middle(&mut out);
    let digits = render_i64(exp);
    push_all(&mut out, digits.as_slice());
    out.push(125u8);
    proof {
        assert(out@ =~= claims_text(uid@, exp as int));
    }
    out
}

/// Claims texts with 36-byte identities are told apart by their fields.
pub proof fn lemma_claims_text_injective(u1: Seq<u8>, e1: int, u2: Seq<u8>, e2: int)
    requires
        u1.len() == 36,
        u2.len() == 36,
        claims_text(u1, e1) == claims_text(u2, e2),
    ensures
        u1 == u2,
        e1 == e2,
{
    let c = claims_text(u1, e1);
    assert(c.subrange(12, 48) =~= u1);
    assert(claims_text(u2, e2).subrange(12, 48) =~= u2);
    assert(c.subrange(56, c.len() - 1) =~= dec_int(e1));
    assert(claims_text(u2, e2).subrange(56, c.len() - 1) =~= dec_int(e2));
    lemma_dec_int_injective(e1, e2);
}

proof fn lemma_low_nibble(x: u128)
    ensures
        (x & 15) < 16,
{
    assert((x & 15) < 16) by (bit_vector);
}

/// Every byte of a hyphenated UUID text is a hex digit or a hyphen, so it
/// stands in a JSON string as it is.
proof fn lemma_uuid_text_plain(id: u128)
    ensures
        plain_text(uuid_hyphenated(id)),
{
    let u = uuid_hyphenated(id);
    assert forall|i: int| 0 <= i < u.len() implies 32 <= #[trigger] u[i] <= 126 && u[i] != 34 && u[i]
        != 92 by {
        if !(i == 8 || i == 13 || i == 18 || i == 23) {
            let k = if i < 8 { i } else if i < 13 { i - 1 } else if i < 18 { i - 2 } else if i < 23 {
                i - 3
            } else {
                i - 4
            };
            let x = id >> ((4 * (31 - k)) as u128);
            lemma_low_nibble(x);
            let n = x & 15;
            assert(u[i] == hex_digit(n));
        }
    };
}

/// The claims JSON of a session for `user_id` that expires at `exp`. The
/// claims are read back once with the reader that decoding uses, whose
/// contract shows that they read as written.
pub fn session_claims_json(user_id: u128, exp: i64) -> (r: Vec<u8>)
    ensures
        r@ == claims_text(uuid_hyphenated(user_id), exp as int),
        json_claims(r@) == Some((uuid_hyphenated(user_id), exp)),
        uuid_value(uuid_hyphenated(user_id)) == Some(user_id),
{
    let uid = identity_text(user_id);
    let r = claims_json(uid.as_slice(), exp);
    let _read_back = read_claims(r.as_slice());
    proof {
        lemma_uuid_text_plain(user_id);
        assert(claims_text(uid@, exp as int) == r@);
    }
    r
}

/// Issues the token for `user_id` at Unix time `now`: its claims expire
/// one session length later.
pub fn issue_at(key: &[u8], user_id: u128, now: i64) -> (r: Option<String>)
    requires
        now <= i64::MAX - SESSION_LENGTH_SECS,
    ensures
        r matches Some(t) && issued(key@, user_id, now as int, t@),
{
    let claims = session_claims_json(user_id, now + SESSION_LENGTH_SECS);
    proof {
        assert(claims@[0] == claims_prefix()[0]);
        assert(braced(claims@));
        assert(claims_text(uuid_hyphenated(user_id), now + SESSION_LENGTH_SECS) == claims@);
    }
    jwt_sign(key, claims.as_slice())
}

/// Whether `token` was issued with `key` for `user_id` at some time the clock
/// can give.
pub open spec fn issued_by_clock(key: Seq<u8>, user_id: u128, token: Seq<char>) -> bool {
    exists|now: i64| -CLOCK_BOUND < now < CLOCK_BOUND && issued(key, user_id, now as int, token)
}

/// Issues a token for `user_id` that expires one session length from now.
pub fn issue(key: &[u8], user_id: u128) -> (r: Option<String>)
    ensures
        r matches Some(t) && issued_by_clock(key@, user_id, t@),
{
    let now = now_unix();
    let r = issue_at(key, user_id, now);
    assert(-CLOCK_BOUND < now < CLOCK_BOUND && issued(key@, user_id, now as int, r->Some_0@));
    r
}

/// Decodes `token` with `key` at Unix time `now`. The signature is checked
/// before any claim is read.
pub fn decode_at(key: &[u8], token: &str, now: i64) -> (r: Result<SessionClaims, AuthError>)
    ensures
        r == decoded(key@, token@, now as int),
{
    let c = match jwt_open(key, token) {
        Ok(c) => c,
        Err(JwtFault::Malformed) => return Err(AuthError::Malformed),
        Err(JwtFault::BadSignature) => return Err(AuthError::BadSignature),
    };
    let (uid, exp) = match read_claims(c.as_slice()) {
        Some(f) => f,
        None => return Err(AuthError::Malformed),
    };
    let user_id = match uuid_parse(uid.as_slice()) {
        Some(id) => id,
        None => return Err(AuthError::Malformed),
    };
    if exp < now {
        return Err(AuthError::Expired);
    }
    Ok(SessionClaims { user_id, exp })
}

/// Decodes `token` with `key` at the current time.
pub fn decode(key: &[u8], token: &str) -> (r: Result<SessionClaims, AuthError>)
    ensures
        exists|now: i64| -CLOCK_BOUND < now < CLOCK_BOUND && r == decoded(key@, token@, now as int),
{
    let now = now_unix();
    decode_at(key, token, now)
}

/// A token decodes, until it expires, to the identity it was issued for,
/// with an expiry one session length after its issue.
pub proof fn lemma_issued_token_decodes(key: Seq<u8>, user_id: u128, now: int, token: Seq<char>, at: int)
    requires
        issued(key, user_id, now, token),
        i64::MIN <= now <= i64::MAX - SESSION_LENGTH_SECS,
        at <= now + SESSION_LENGTH_SECS,
    ensures
        decoded(key, token, at) == Ok::<SessionClaims, AuthError>(
            SessionClaims { user_id, exp: (now + SESSION_LENGTH_SECS) as i64 },
        ),
{
}

/// Two tokens issued with one key in the same second are equal exactly when
/// they were issued for the same identity.
pub proof fn lemma_issued_tokens_agree(key: Seq<u8>, a: u128, b: u128, now: int, ta: Seq<char>, tb: Seq<char>)
    requires
        issued(key, a, now, ta),
        issued(key, b, now, tb),
    ensures
        (a == b) == (ta == tb),
{
    if ta == tb {
        let e = now + SESSION_LENGTH_SECS;
        lemma_claims_text_injective(uuid_hyphenated(a), e, uuid_hyphenated(b), e);
    }
}

/// A token whose expiry has passed is refused, though its signature is
/// good; where its identity reads, it is refused as expired.
pub proof fn lemma_expired_token_refused(key: Seq<u8>, token: Seq<char>, uid: Seq<u8>, exp: i64, at: int)
    requires
        jwt_opened(key, token) matches Ok(c) && json_claims(c) == Some((uid, exp)),
        exp < at,
    ensures
        decoded(key, token, at) is Err,
        uuid_value(uid) is Some ==> decoded(key, token, at) == Err::<SessionClaims, AuthError>(
            AuthError::Expired,
        ),
{
}

} // verus!
