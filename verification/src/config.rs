//! Configuration of the CSRF protection: token lifespan, cookie name and
//! secret length, built in the builder style.

use vstd::prelude::*;

verus! {

/// A span of time counted in whole seconds, used for the cookie lifespan.
#[derive(Clone, Copy, Debug, PartialEq, Eq, Structural)]
pub struct Duration {
    pub secs: i64,
}

impl Duration {
    /// A duration of `s` seconds.
    pub fn seconds(s: i64) -> (r: Self)
        ensures
            r.secs == s,
    {
        Duration { secs: s }
    }

    /// A duration of `h` hours.
    pub fn hours(h: i64) -> (r: Self)
        requires
            -2_562_047_788_015_215 <= h <= 2_562_047_788_015_215,
        ensures
            r.secs == 3600 * h,
    {
        Duration { secs: 3600 * h }
    }

    /// A duration of `d` days.
    pub fn days(d: i64) -> (r: Self)
        requires
            -106_751_991_167_300 <= d <= 106_751_991_167_300,
        ensures
            r.secs == 86400 * d,
    {
        Duration { secs: 86400 * d }
    }
}

/// Configuration for CSRF protection: how long a session secret lives, the
/// name of the cookie that carries it, and the length of the secret in bytes.
///
/// `cookie_len` should be at least 16 to resist brute force; this is the
/// caller's responsibility and is not enforced here.
#[derive(Clone, Debug)]
pub struct CsrfConfig {
    /// How long the session secret cookie remains valid; `None` makes it a
    /// session-duration cookie.
    pub lifespan: Option<Duration>,
    /// The name of the cookie that stores the session secret.
    pub cookie_name: String,
    /// The length of the session secret in bytes.
    pub cookie_len: usize,
}

impl Default for CsrfConfig {
    /// The default configuration: a lifespan of one day, cookie name
    /// `csrf_token`, and a 32-byte secret.
    fn default() -> (r: Self)
        ensures
            r.lifespan == Some(Duration { secs: 86400 }),
            r.cookie_name@ == "csrf_token"@,
            r.cookie_len == 32,
    {
        CsrfConfig {
            lifespan: Some(Duration::days(1)),
            cookie_name: "csrf_token".to_owned(),
            cookie_len: 32,
        }
    }
}

impl CsrfConfig {
    /// Returns the configuration with the lifespan replaced.
    pub fn with_lifetime(self, time: Option<Duration>) -> (r: Self)
        ensures
            r.lifespan == time,
            r.cookie_name == self.cookie_name,
            r.cookie_len == self.cookie_len,
    {
        CsrfConfig { lifespan: time, cookie_name: self.cookie_name, cookie_len: self.cookie_len }
    }

    /// Returns the configuration with the cookie name replaced.
    pub fn with_cookie_name(self, name: String) -> (r: Self)
        ensures
            r.lifespan == self.lifespan,
            r.cookie_name == name,
            r.cookie_len == self.cookie_len,
    {
        CsrfConfig { lifespan: self.lifespan, cookie_name: name, cookie_len: self.cookie_len }
    }

    /// Returns the configuration with the secret length replaced.
    pub fn with_cookie_len(self, length: usize) -> (r: Self)
        ensures
            r.lifespan == self.lifespan,
            r.cookie_name == self.cookie_name,
            r.cookie_len == length,
    {
        CsrfConfig { lifespan: self.lifespan, cookie_name: self.cookie_name, cookie_len: length }
    }
}

} // verus!
