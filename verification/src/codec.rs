//! Raw frame bytes as text, in base64 with the standard alphabet and
//! padding. The codec is the `base64` crate's; nothing here looks inside
//! the text.

use vstd::prelude::*;
use base64::Engine;

verus! {

/// The text that the standard base64 engine gives for `data`.
pub uninterp spec fn base64_encoding(data: Seq<u8>) -> Seq<char>;

/// The bytes that the standard base64 engine reads from `text`, where it
/// accepts `text`.
pub uninterp spec fn base64_decoding(text: Seq<char>) -> Option<Seq<u8>>;

/// Whether the text for `len` bytes has a length that fits in `usize`:
/// four characters for every three bytes, and four more for a rest.
pub open spec fn can_encode(len: nat) -> bool {
    len / 3 * 4 + 4 <= usize::MAX
}

/// Whether `len` bytes can be encoded.
pub fn fits_encoding(len: usize) -> (fits: bool)
    ensures
        fits == can_encode(len as nat),
{
    len / 3 <= (usize::MAX - 4) / 4
}

/// Calls `Engine::encode` of `base64::engine::general_purpose::STANDARD`.
/// Not proved: that the result is the engine's text for `data`, and that
/// the engine reads `data` back from its own text. The call panics where
/// the length of the text overflows, which `requires` leaves out.
#[verifier::external_body]
pub(crate) fn base64_encode(data: &[u8]) -> (text: String)
    requires
        can_encode(data@.len()),
    ensures
        text@ == base64_encoding(data@),
        base64_decoding(text@) == Some(data@),
{
    base64::engine::general_purpose::STANDARD.encode(data)
}

/// Calls `Engine::decode` of `base64::engine::general_purpose::STANDARD`.
/// Not proved: that the result is what the engine reads from `text`, and
/// nothing where the engine reports an error.
#[verifier::external_body]
pub(crate) fn base64_decode(text: &str) -> (data: Option<Vec<u8>>)
    ensures
        match data {
            Some(bytes) => base64_decoding(text@) == Some(bytes@),
            None => base64_decoding(text@) is None,
        },
{
    base64::engine::general_purpose::STANDARD.decode(text).ok()
}

} // verus!
