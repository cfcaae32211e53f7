//! One-way hashing of session secrets: bcrypt behind trusted wrappers.

use vstd::prelude::*;

verus! {

/// The work factor handed to bcrypt when minting an authenticity token.
/// Deliberately low to keep response latency down; see `mint_with_cost` for
/// choosing a higher one.
pub const BCRYPT_COST: u32 = 8;

/// What `bcrypt::verify(password, hash)` returns: `Some(true)` when `hash` is
/// a well-formed bcrypt hash of `password`, `Some(false)` when it is
/// well-formed but of another password, `None` when it is malformed.  The
/// result is a pure function of the two arguments.
pub uninterp spec fn bcrypt_check(password: Seq<char>, hash: Seq<char>) -> Option<bool>;

/// A submitted value matches a session secret exactly when the bcrypt check
/// of the pair comes back positive.
pub open spec fn token_matches(secret: Seq<char>, submitted: Seq<char>) -> bool {
    bcrypt_check(secret, submitted) == Some(true)
}

/// Minting an authenticity token failed in the underlying hash primitive
/// (an out-of-range cost, or the system's randomness was unavailable).
#[derive(Clone, Copy, Debug, PartialEq, Eq, Structural)]
pub struct HashError;

/// Relies on `bcrypt::hash`: on success the result is a bcrypt hash of the
/// input made with a fresh random salt, so `bcrypt::verify` accepts the pair;
/// a cost outside 4..=31 is rejected.
#[verifier::external_body]
pub(crate) fn bcrypt_hash_secret(secret: &str, cost: u32) -> (r: Option<String>)
    ensures
        r matches Some(h) ==> bcrypt_check(secret@, h@) == Some(true),
        !(4 <= cost <= 31) ==> r is None,
{
    match bcrypt::hash(secret, cost) {
        Ok(h) => Some(h),
        Err(_) => None,
    }
}

/// Relies on `bcrypt::verify`: its outcome is a pure function of the
/// password and the hash string.
#[verifier::external_body]
pub(crate) fn bcrypt_verify_secret(secret: &str, hash: &str) -> (r: Option<bool>)
    ensures
        r == bcrypt_check(secret@, hash@),
{
    match bcrypt::verify(secret, hash) {
        Ok(b) => Some(b),
        Err(_) => None,
    }
}

} // verus!
