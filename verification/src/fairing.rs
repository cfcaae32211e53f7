//! The request-lifecycle middleware: on every inbound request, make sure a
//! valid session secret cookie exists, minting a fresh one when it does not.
//! The host framework hands in the current cookie value and the current time
//! and writes the returned cookie (if any) through its tamper-proof jar.

use vstd::prelude::*;
use rand::Rng;
use crate::codec::{b64_decoding, encode_secret};
use crate::config::CsrfConfig;
use crate::session::{has_valid_secret, valid_csrf_token_from_session, view_of_cookie};

verus! {

/// A cookie the middleware asks the host to set: the named session secret
/// cookie, transport-encoded, rooted at `/`, expiring at `expires` (a Unix
/// timestamp in seconds) or with the browser session when `expires` is
/// `None`.
#[derive(Clone, Debug)]
pub struct CsrfCookie {
    /// The cookie's name, taken from the configuration.
    pub name: String,
    /// The cookie's value: the base64 encoding of the raw secret.
    pub value: String,
    /// The cookie's path, always the root.
    pub path: String,
    /// When the cookie expires, in seconds since the Unix epoch; `None`
    /// marks a session-duration cookie.
    pub expires: Option<i64>,
}

/// The CSRF protection middleware, carrying the configuration it installs
/// into the host at startup.
pub struct Fairing {
    /// The configuration governing all session secrets of the process.
    pub config: CsrfConfig,
}

impl Fairing {
    /// A middleware with the given configuration.
    pub fn new(config: CsrfConfig) -> (r: Self)
        ensures
            r.config == config,
    {
        Fairing { config }
    }
}

impl Default for Fairing {
    /// A middleware with the default configuration.
    fn default() -> (r: Self)
        ensures
            r.config.lifespan == Some(crate::config::Duration { secs: 86400 }),
            r.config.cookie_name@ == "csrf_token"@,
            r.config.cookie_len == 32,
    {
        Fairing::new(CsrfConfig::default())
    }
}

/// Relies on `rand::thread_rng` and `Rng::sample_iter` over the `Standard`
/// distribution: an endless stream of cryptographically secure random bytes,
/// of which the first `n` are taken.  Nothing can be promised of the bytes
/// themselves.
#[verifier::external_body]
pub(crate) fn generate_secret(n: usize) -> (r: Vec<u8>)
    ensures
        r@.len() == n,
{
    rand::thread_rng().sample_iter(rand::distributions::Standard).take(n).collect()
}

/// The middleware's per-request decision.  When the request already carries
/// a valid session secret of sufficient length, nothing is emitted and the
/// cookie stays untouched.  Otherwise a fresh random secret of exactly
/// `config.cookie_len` bytes is minted, and the returned cookie carries its
/// encoding under the configured name, rooted at `/`, expiring at
/// `now + lifespan` or with the browser session when no lifespan is
/// configured.
pub fn ensure_csrf_cookie(config: &CsrfConfig, existing: Option<&str>, now: i64) -> (r: Option<
    CsrfCookie>)
    requires
        config.lifespan matches Some(d) ==> i64::MIN <= now + d.secs <= i64::MAX,
    ensures
        r is None <==> has_valid_secret(view_of_cookie(existing), *config),
        r matches Some(c) ==> (c.name@ == config.cookie_name@ && c.path@ == "/"@
            && (b64_decoding(c.value@) matches Some(b) && b.len() == config.cookie_len)
            && (config.lifespan is None ==> c.expires is None)
            && (config.lifespan matches Some(d) ==> (c.expires matches Some(e) && e == now
            + d.secs))),
{
    if valid_csrf_token_from_session(config, existing).is_some() {
        return None;
    }

    let secret = generate_secret(config.cookie_len);
    let encoded = encode_secret(secret.as_slice());

    let expires: Option<i64> = match config.lifespan {
        Some(duration) => Some(now + duration.secs),
        None => None,
    };

    Some(
        CsrfCookie {
            name: config.cookie_name.clone(),
            value: encoded,
            path: "/".to_owned(),
            expires,
        },
    )
}

} // verus!
