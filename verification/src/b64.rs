//! Base64 framing of binary payloads.
//!
//! Audio and video travel inline in JSON frames as standard base64 text.
//! The encoding itself is the `base64` crate's work; its results are
//! named here and everything that depends on them is verified against
//! those names.

use base64::Engine;
use vstd::prelude::*;

verus! {

/// The standard, padded base64 text of a byte sequence, as the `base64`
/// crate writes it. The result is a function of the bytes alone.
pub uninterp spec fn b64_encoding(b: Seq<u8>) -> Seq<char>;

/// The bytes a base64 text denotes under strict standard decoding, or
/// `None` when the text is not valid base64. The result is a function of
/// the text alone.
pub uninterp spec fn b64_decoding(s: Seq<char>) -> Option<Seq<u8>>;

/// Relies on `base64::engine::general_purpose::STANDARD.encode`: the
/// padded standard-alphabet encoding, four output characters for every
/// three input bytes, which strict decoding maps back to the input.
#[verifier::external_body]
pub(crate) fn b64_encode(b: &[u8]) -> (r: String)
    requires
        4 * b@.len() <= usize::MAX,
    ensures
        r@ == b64_encoding(b@),
        b64_decoding(r@) == Some(b@),
        r@.len() == 4 * ((b@.len() + 2) / 3),
{
    base64::engine::general_purpose::STANDARD.encode(b)
}

/// Relies on `base64::engine::general_purpose::STANDARD.decode`: strict
/// decoding that accepts exactly the texts [`b64_decoding`] accepts.
#[verifier::external_body]
pub(crate) fn b64_decode(s: &str) -> (r: Option<Vec<u8>>)
    ensures
        r is Some <==> b64_decoding(s@) is Some,
        match r {
            Some(o) => b64_decoding(s@) == Some(o@),
            None => true,
        },
{
    base64::engine::general_purpose::STANDARD.decode(s).ok()
}

} // verus!
