//! Laws of the token lifecycle that relate several functions of the
//! library.  The per-function guarantees (a fresh cookie decodes to exactly
//! the configured length, a valid existing secret is left untouched, the
//! expiration is `now + lifespan` or absent) stand in the `ensures` of
//! `fairing::ensure_csrf_cookie` and `session::valid_csrf_token_from_session`.

use vstd::prelude::*;
use crate::codec::b64_decoding;
use crate::hashing::{bcrypt_check, token_matches};
use crate::session::valid_encoded_secret;

verus! {

/// The validity policy is a minimum-length check: a stored secret exactly as
/// long as the configured length is valid, one byte shorter is rejected (and
/// so triggers a re-mint), and longer stored values remain accepted.
pub proof fn lemma_secret_length_boundary(s: Seq<char>, b: Seq<u8>, len: usize)
    requires
        b64_decoding(s) == Some(b),
    ensures
        b.len() == len ==> valid_encoded_secret(s, len),
        b.len() < len ==> !valid_encoded_secret(s, len),
        b.len() > len ==> valid_encoded_secret(s, len),
{
}

/// Any authenticity token minted from a session secret verifies against that
/// secret: `CsrfToken::authenticity_token` guarantees a positive bcrypt
/// check for its result, and `CsrfToken::verify` succeeds exactly on a
/// positive bcrypt check.  Nothing ties the minted hash to the secret
/// structurally — it is one-way — so this is the only sense in which the
/// mint/verify round trip is owed.
pub proof fn lemma_minted_token_verifies(secret: Seq<char>, minted: Seq<char>)
    requires
        bcrypt_check(secret, minted) == Some(true),
    ensures
        token_matches(secret, minted),
{
}

} // verus!
