//! Reading the session secret out of the tamper-proof cookie: decoding,
//! the minimum-length validity policy, and the request-guard extraction of a
//! `CsrfToken`.

use vstd::prelude::*;
use crate::codec::{b64_decoding, b64_encoding, decode_secret, encode_secret};
use crate::config::CsrfConfig;
use crate::token::CsrfToken;

verus! {

/// A cookie value holds a valid session secret for a required length when it
/// decodes as base64 and the decoded bytes are at least that long.  The check
/// is a minimum, not an exact match: secrets longer than the configured
/// length stay valid, a deliberate tolerance for configuration changes
/// across deployments.
pub open spec fn valid_encoded_secret(s: Seq<char>, min_len: usize) -> bool {
    b64_decoding(s) matches Some(b) && b.len() >= min_len
}

/// A session cookie (when present) carries a valid secret for the
/// configuration.
pub open spec fn has_valid_secret(cookie: Option<Seq<char>>, config: CsrfConfig) -> bool {
    cookie matches Some(s) && valid_encoded_secret(s, config.cookie_len)
}

/// Decodes the session secret from the value of the session cookie, if the
/// cookie was present at all.  Returns the raw secret bytes, or `None` when
/// the cookie is missing or not base64.
pub fn csrf_token_from_session(cookie_value: Option<&str>) -> (r: Option<Vec<u8>>)
    ensures
        match r {
            Some(b) => cookie_value matches Some(s) && b64_decoding(s@) == Some(b@),
            None => match cookie_value {
                Some(s) => b64_decoding(s@) is None,
                None => true,
            },
        },
{
    match cookie_value {
        Some(s) => decode_secret(s),
        None => None,
    }
}

/// Decodes the session secret and applies the validity policy: the secret
/// must be at least `config.cookie_len` bytes long.  Returns the raw secret
/// exactly when the cookie holds a valid one.
pub fn valid_csrf_token_from_session(config: &CsrfConfig, cookie_value: Option<&str>) -> (r:
    Option<Vec<u8>>)
    ensures
        r is Some <==> has_valid_secret(view_of_cookie(cookie_value), *config),
        r matches Some(b) ==> (cookie_value matches Some(s) && b64_decoding(s@) == Some(b@)
            && b@.len() >= config.cookie_len),
{
    match csrf_token_from_session(cookie_value) {
        Some(raw) => {
            if raw.len() >= config.cookie_len {
                Some(raw)
            } else {
                None
            }
        }
        None => None,
    }
}

/// The mathematical view of an optional cookie value.
pub open spec fn view_of_cookie(cookie_value: Option<&str>) -> Option<Seq<char>> {
    match cookie_value {
        Some(s) => Some(s@),
        None => None,
    }
}

/// The request-guard extraction of a `CsrfToken`: succeeds exactly when the
/// session cookie holds a valid secret, and then wraps the secret's
/// canonical transport encoding.  A `None` is a hard stop for any handler
/// requiring the guard; the host maps it to an authorization-denied
/// response.
pub fn csrf_token_from_request(config: &CsrfConfig, cookie_value: Option<&str>) -> (r: Option<
    CsrfToken>)
    ensures
        r is Some <==> has_valid_secret(view_of_cookie(cookie_value), *config),
        r matches Some(t) ==> (cookie_value matches Some(s)
            && (b64_decoding(s@) matches Some(b) && t@ == b64_encoding(b)
            && b.len() >= config.cookie_len)),
{
    match valid_csrf_token_from_session(config, cookie_value) {
        Some(raw) => {
            let encoded = encode_secret(raw.as_slice());
            Some(CsrfToken::from_encoded(encoded))
        }
        None => None,
    }
}

} // verus!
