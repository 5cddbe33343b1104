use kiwi::auth::{authenticate, authenticate_at, AuthUser};
use kiwi::config::Config;
use kiwi::error::{AuthError, Error};
use kiwi::token::issue_at;
use uuid::Uuid;

const KEY: &[u8] = b"a server secret that signs sessions";
const NOW: i64 = 1_700_000_000;

fn user() -> u128 {
    Uuid::parse_str("11111111-1111-1111-1111-111111111111").unwrap().as_u128()
}

fn header_for(token: &str) -> Vec<u8> {
    format!("Token {}", token).into_bytes()
}

#[test]
fn good_header_authenticates() {
    let token = issue_at(KEY, user(), NOW).unwrap();
    let h = header_for(&token);
    assert_eq!(authenticate_at(KEY, Some(&h), NOW), Ok(AuthUser { user_id: user() }));
}

#[test]
fn missing_header_is_refused() {
    assert_eq!(authenticate_at(KEY, None, NOW), Err(AuthError::MissingHeader));
}

#[test]
fn non_utf8_header_is_malformed() {
    let h: Vec<u8> = vec![b'T', b'o', b'k', b'e', b'n', b' ', 0xff, 0xfe];
    assert_eq!(authenticate_at(KEY, Some(&h), NOW), Err(AuthError::Malformed));
}

#[test]
fn wrong_scheme_is_refused() {
    let token = issue_at(KEY, user(), NOW).unwrap();
    let h = format!("Bearer {}", token).into_bytes();
    assert_eq!(authenticate_at(KEY, Some(&h), NOW), Err(AuthError::WrongScheme));
    assert_eq!(authenticate_at(KEY, Some(b"Token"), NOW), Err(AuthError::WrongScheme));
    assert_eq!(authenticate_at(KEY, Some(b"token abc"), NOW), Err(AuthError::WrongScheme));
}

#[test]
fn corrupted_token_is_refused() {
    let token = issue_at(KEY, user(), NOW).unwrap();
    let mut h = header_for(&token);
    let last = h.len() - 3;
    h[last] = if h[last] == b'x' { b'y' } else { b'x' };
    assert_eq!(authenticate_at(KEY, Some(&h), NOW), Err(AuthError::BadSignature));
}

#[test]
fn expired_token_header_is_refused() {
    let token = issue_at(KEY, user(), 0).unwrap();
    let h = header_for(&token);
    assert_eq!(authenticate_at(KEY, Some(&h), NOW), Err(AuthError::Expired));
}

#[test]
fn every_refusal_looks_alike() {
    let token = issue_at(KEY, user(), NOW).unwrap();
    let mut corrupted = header_for(&token);
    let last = corrupted.len() - 3;
    corrupted[last] = if corrupted[last] == b'x' { b'y' } else { b'x' };
    let non_utf8: Vec<u8> = vec![b'T', b'o', b'k', b'e', b'n', b' ', 0xc3];
    let wrong = format!("Basic {}", token).into_bytes();
    let outcomes = [
        authenticate_at(KEY, None, NOW),
        authenticate_at(KEY, Some(&non_utf8), NOW),
        authenticate_at(KEY, Some(&wrong), NOW),
        authenticate_at(KEY, Some(&corrupted), NOW),
    ];
    for r in outcomes.iter() {
        let e = (*r).unwrap_err().to_error();
        assert_eq!(e, Error::Unauthorized);
        assert_eq!(e.status_code(), 401);
    }
}

#[test]
fn to_jwt_then_authenticate() {
    let config = Config::new("sqlite::memory:".to_string(), "configured secret".to_string());
    let me = AuthUser { user_id: user() };
    let token = me.to_jwt(&config).unwrap();
    let h = header_for(&token);
    assert_eq!(authenticate(&config, Some(&h)), Ok(me));
    let other = Config::new("sqlite::memory:".to_string(), "other secret".to_string());
    assert_eq!(authenticate(&other, Some(&h)), Err(AuthError::BadSignature));
}
