use base64::engine::general_purpose;
use base64::Engine;
use rocket_csrf_token::fairing::ensure_csrf_cookie;
use rocket_csrf_token::{CsrfConfig, Duration};

const COOKIE_NAME: &str = "foobar";
const COOKIE_LEN: usize = 64;

fn configured(lifetime: Option<Duration>) -> CsrfConfig {
    CsrfConfig::default()
        .with_cookie_name(COOKIE_NAME.to_string())
        .with_cookie_len(COOKIE_LEN)
        .with_lifetime(lifetime)
}

#[test]
fn fairing_configured_add_csrf_token_to_cookies() {
    let config = configured(Some(Duration::days(5)));
    let cookie = ensure_csrf_cookie(&config, None, 1_000_000).unwrap();
    assert_eq!(cookie.name, COOKIE_NAME);
    general_purpose::STANDARD.decode(&cookie.value).unwrap();
}

fn process_request(header: Option<&str>) -> Result<(), &'static str> {
    if header.is_none() {
        return Err("Request lacks X-CSRF-Token");
    }
    Ok(())
}

#[test]
fn add_csrf_token_to_cookies_headers_lifetime() {
    let config = configured(None);

    match process_request(None) {
        Err(err) => assert_eq!(err, "Request lacks X-CSRF-Token"),
        Ok(_) => panic!("Expected an error, but got Ok"),
    }

    match process_request(Some("csrf-token-value")) {
        Ok(_) => {}
        Err(_) => panic!("Unexpected error"),
    }

    let csrf_cookie = ensure_csrf_cookie(&config, None, 1_000_000);

    assert!(csrf_cookie.is_some(), "CSRF token cookie should exist");

    let csrf_cookie = csrf_cookie.unwrap();

    assert!(
        csrf_cookie.expires.is_none(),
        "CSRF token cookie should have no expiration"
    );

    assert_eq!(csrf_cookie.path, "/");
}

#[test]
fn fairing_default_add_csrf_token_to_cookies() {
    let config = CsrfConfig::default();
    let cookie = ensure_csrf_cookie(&config, None, 1_000_000).unwrap();
    assert_eq!(cookie.name, "csrf_token");
    let decoded = general_purpose::STANDARD.decode(&cookie.value).unwrap();
    assert_eq!(decoded.len(), 32);
}

#[test]
fn fresh_cookie_decodes_to_configured_length() {
    // First request of the scenario: cookie name foobar, 64-byte secret,
    // three-day lifespan.
    let now: i64 = 1_700_000_000;
    let config = configured(Some(Duration::days(3)));
    let cookie = ensure_csrf_cookie(&config, None, now).unwrap();
    assert_eq!(cookie.name, "foobar");
    assert_eq!(cookie.path, "/");
    let decoded = general_purpose::STANDARD.decode(&cookie.value).unwrap();
    assert_eq!(decoded.len(), 64);
    assert_eq!(cookie.expires, Some(now + 3 * 86400));
}

#[test]
fn valid_existing_cookie_is_kept() {
    // A stored secret of exactly the configured length: the middleware must
    // not emit a new cookie.
    let config = CsrfConfig::default();
    let stored = general_purpose::STANDARD.encode([7u8; 32]);
    assert!(ensure_csrf_cookie(&config, Some(&stored), 42).is_none());
}

#[test]
fn short_secret_triggers_remint() {
    // One byte shorter than configured: rejected, a fresh cookie is minted.
    let config = CsrfConfig::default();
    let stored = general_purpose::STANDARD.encode([7u8; 31]);
    let cookie = ensure_csrf_cookie(&config, Some(&stored), 42).unwrap();
    let decoded = general_purpose::STANDARD.decode(&cookie.value).unwrap();
    assert_eq!(decoded.len(), 32);
}

#[test]
fn longer_secret_stays_accepted() {
    let config = CsrfConfig::default();
    let stored = general_purpose::STANDARD.encode([7u8; 33]);
    assert!(ensure_csrf_cookie(&config, Some(&stored), 42).is_none());
}

#[test]
fn malformed_cookie_triggers_remint() {
    let config = CsrfConfig::default();
    let cookie = ensure_csrf_cookie(&config, Some("not base64 !!!"), 42);
    assert!(cookie.is_some());
}

#[test]
fn expiry_follows_lifespan() {
    let now: i64 = 1_000;
    let with_day = CsrfConfig::default();
    let cookie = ensure_csrf_cookie(&with_day, None, now).unwrap();
    assert_eq!(cookie.expires, Some(now + 86400));

    let session_only = CsrfConfig::default().with_lifetime(None);
    let cookie = ensure_csrf_cookie(&session_only, None, now).unwrap();
    assert_eq!(cookie.expires, None);
}
