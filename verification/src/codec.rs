//! Transport encoding of the session secret: standard base64 with padding,
//! as the base64 crate's `general_purpose::STANDARD` engine computes it.

use vstd::prelude::*;
use base64::Engine;
use base64::engine::general_purpose;

verus! {

/// The standard base64 encoding (with padding) of a byte sequence, as
/// `general_purpose::STANDARD.encode` computes it.
pub uninterp spec fn b64_encoding(b: Seq<u8>) -> Seq<char>;

/// The result of strict standard base64 decoding: `Some` with the decoded
/// bytes on a canonical encoding, `None` on any other input, as
/// `general_purpose::STANDARD.decode` computes it.
pub uninterp spec fn b64_decoding(s: Seq<char>) -> Option<Seq<u8>>;

/// Relies on `base64::engine::general_purpose::STANDARD.encode`: the result
/// is the canonical padded base64 encoding of the input, and decoding it with
/// the same engine gives the input back.
#[verifier::external_body]
pub(crate) fn encode_secret(b: &[u8]) -> (r: String)
    ensures
        r@ == b64_encoding(b@),
        b64_decoding(r@) == Some(b@),
{
    general_purpose::STANDARD.encode(b)
}

/// Relies on `base64::engine::general_purpose::STANDARD.decode`: it accepts
/// exactly the canonical padded encodings (the engine requires canonical
/// padding and rejects set trailing bits) and then returns the bytes whose
/// encoding the input is.
#[verifier::external_body]
pub(crate) fn decode_secret(s: &str) -> (r: Option<Vec<u8>>)
    ensures
        match r {
            Some(v) => b64_decoding(s@) == Some(v@) && s@ == b64_encoding(v@),
            None => b64_decoding(s@) is None,
        },
{
    match general_purpose::STANDARD.decode(s) {
        Ok(v) => Some(v),
        Err(_) => None,
    }
}

} // verus!
