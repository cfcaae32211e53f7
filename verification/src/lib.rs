//! Cross-Site Request Forgery (CSRF) protection core.
//!
//! The library issues a per-session random secret, persists it through a
//! tamper-proof cookie supplied by the host web framework, derives one-way
//! hashed authenticity tokens from it, and verifies submitted tokens against
//! the session secret.  All decision logic is verified; calls into the
//! base64, bcrypt and rand crates stand behind trusted wrappers.

pub mod codec;
pub mod config;
pub mod fairing;
pub mod hashing;
pub mod laws;
pub mod session;
pub mod token;

pub use config::CsrfConfig;
pub use config::Duration;
pub use fairing::CsrfCookie;
pub use fairing::Fairing;
pub use token::CsrfToken;
pub use token::HeaderCheckOutcome;
pub use token::VerificationFailure;
