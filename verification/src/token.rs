//! The per-request CSRF token: minting one-way hashed authenticity tokens
//! and verifying submitted values against the session secret.

use vstd::prelude::*;
use crate::hashing::{bcrypt_hash_secret, bcrypt_verify_secret, token_matches, HashError,
    BCRYPT_COST};

verus! {

/// A CSRF token: the transport-encoded form of the current session secret.
/// Authenticity tokens are minted from it, and submitted values are verified
/// against it.
#[derive(Clone)]
pub struct CsrfToken(String);

impl View for CsrfToken {
    type V = Seq<char>;

    closed spec fn view(&self) -> Seq<char> {
        self.0@
    }
}

/// A submitted authenticity token did not match the session secret.
#[derive(Debug)]
pub struct VerificationFailure;

/// What checking the `X-CSRF-Token` request header produced.
pub enum HeaderCheckOutcome {
    /// The header carried a value that verifies against the session secret;
    /// the token built from it is ready for downstream use.
    Accepted(CsrfToken),
    /// The request carried no such header.
    MissingHeader,
    /// The header's value did not verify against the session secret.
    Rejected,
}

impl CsrfToken {
    /// Wraps an already transport-encoded session secret.
    pub(crate) fn from_encoded(encoded: String) -> (r: Self)
        ensures
            r@ == encoded@,
    {
        CsrfToken(encoded)
    }

    /// The empty placeholder token, for a request on which no session
    /// secret has been established yet.
    pub fn empty() -> (r: Self)
        ensures
            r@ === Seq::<char>::empty(),
    {
        CsrfToken(String::new())
    }

    /// The encoded session secret this token wraps.
    pub fn value(&self) -> (r: &String)
        ensures
            r@ == self@,
    {
        &self.0
    }

    /// Derives a one-way hashed authenticity token from the session secret,
    /// for embedding in an outgoing form or page.  On success the result
    /// verifies against this token; the raw secret cannot be recovered from
    /// it, and two calls need not return byte-identical hashes.
    pub fn authenticity_token(&self) -> (r: Result<String, HashError>)
        ensures
            r matches Ok(h) ==> token_matches(self@, h@),
    {
        self.mint_with_cost(BCRYPT_COST)
    }

    /// Like `authenticity_token`, with the bcrypt work factor chosen by the
    /// caller.  A cost outside 4..=31 always fails.
    pub fn mint_with_cost(&self, cost: u32) -> (r: Result<String, HashError>)
        ensures
            r matches Ok(h) ==> token_matches(self@, h@),
            !(4 <= cost <= 31) ==> r is Err,
    {
        match bcrypt_hash_secret(self.0.as_str(), cost) {
            Some(h) => Ok(h),
            None => Err(HashError),
        }
    }

    /// Verifies a submitted authenticity token against the session secret.
    /// Succeeds exactly when the bcrypt check of the pair is positive; a
    /// malformed submission fails closed rather than erroring.
    pub fn verify(&self, form_authenticity_token: &String) -> (r: Result<(), VerificationFailure>)
        ensures
            r is Ok <==> token_matches(self@, form_authenticity_token@),
    {
        match bcrypt_verify_secret(self.0.as_str(), form_authenticity_token.as_str()) {
            Some(true) => Ok(()),
            _ => Err(VerificationFailure),
        }
    }

    /// Decides what to do with the `X-CSRF-Token` header of a request:
    /// accept it (wrapping it as the request's token) exactly when it
    /// verifies against the session secret, report it missing, or reject it.
    pub fn check_header(&self, header: Option<String>) -> (r: HeaderCheckOutcome)
        ensures
            r is MissingHeader <==> header is None,
            r matches HeaderCheckOutcome::Accepted(t) ==> (header matches Some(h)
                && token_matches(self@, h@) && t@ == h@),
            r is Rejected ==> (header matches Some(h) && !token_matches(self@, h@)),
    {
        match header {
            None => HeaderCheckOutcome::MissingHeader,
            Some(h) => {
                match self.verify(&h) {
                    Ok(()) => HeaderCheckOutcome::Accepted(CsrfToken(h)),
                    Err(_) => HeaderCheckOutcome::Rejected,
                }
            }
        }
    }
}

} // verus!
