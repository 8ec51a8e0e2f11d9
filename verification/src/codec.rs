//! Base64 transport codec: clipboard images cross the caller boundary as
//! text, encoded with base64's unpadded standard alphabet.
//!
//! The encoding itself is done by the `base64` crate; its result is named by
//! uninterpreted spec functions, and the library's own functions carry exact
//! contracts over those names, including the round trip back to the original
//! bytes.

use vstd::prelude::*;

verus! {

use base64::Engine;

/// The text that base64's unpadded standard engine produces for these bytes.
pub uninterp spec fn base64_of(bytes: Seq<u8>) -> Seq<char>;

/// The bytes that base64's unpadded standard engine decodes this text to,
/// or nothing when the text is not valid unpadded base64.
pub uninterp spec fn base64_decoded(text: Seq<char>) -> Option<Seq<u8>>;

/// Why a piece of clipboard text could not be turned back into bytes.
#[derive(Clone, Copy, Debug, PartialEq, Eq, Structural)]
pub enum CodecError {
    /// The text is not valid unpadded standard base64.
    InvalidBase64,
}

/// `base64::DecodeError` says where and how decoding failed; it is opaque
/// here and mapped to [`CodecError`] right after the call.
#[verifier::external_type_specification]
#[verifier::external_body]
pub struct ExDecodeError(base64::DecodeError);

/// Relies on `base64::engine::general_purpose::STANDARD_NO_PAD.encode`: the
/// result is a function of the bytes alone, and decoding it with the same
/// engine yields the bytes back.  The length bound keeps the engine's output
/// size below `usize::MAX`, the one input on which it panics.
#[verifier::external_body]
fn b64_encode(bytes: &Vec<u8>) -> (encoded: String)
    requires
        4 * bytes@.len() + 2 <= 3 * (usize::MAX as int),
    ensures
        encoded@ == base64_of(bytes@),
        base64_decoded(encoded@) == Some(bytes@),
{
    base64::engine::general_purpose::STANDARD_NO_PAD.encode(bytes)
}

/// Relies on `base64::engine::general_purpose::STANDARD_NO_PAD.decode`: the
/// result is a function of the text alone, and it fails exactly on text that
/// is not valid unpadded base64.
#[verifier::external_body]
fn b64_decode(text: &str) -> (decoded: Result<Vec<u8>, base64::DecodeError>)
    ensures
        match decoded {
            Ok(bytes) => base64_decoded(text@) == Some(bytes@),
            Err(_) => base64_decoded(text@) is None,
        },
{
    base64::engine::general_purpose::STANDARD_NO_PAD.decode(text)
}

/// Encode bytes as unpadded standard base64 text, exactly as the underlying
/// engine defines it; the result always decodes back to the same bytes.
pub fn encode_base64(bytes: &Vec<u8>) -> (encoded: String)
    requires
        4 * bytes@.len() + 2 <= 3 * (usize::MAX as int),
    ensures
        encoded@ == base64_of(bytes@),
        base64_decoded(encoded@) == Some(bytes@),
{
    b64_encode(bytes)
}

/// Decode unpadded standard base64 text back into bytes; exactly the texts
/// the engine accepts come back as `Ok`, everything else as
/// [`CodecError::InvalidBase64`].
pub fn decode_base64(text: &str) -> (decoded: Result<Vec<u8>, CodecError>)
    ensures
        match decoded {
            Ok(bytes) => base64_decoded(text@) == Some(bytes@),
            Err(e) => base64_decoded(text@) is None && e == CodecError::InvalidBase64,
        },
{
    match b64_decode(text) {
        Ok(bytes) => Ok(bytes),
        Err(_) => Err(CodecError::InvalidBase64),
    }
}

} // verus!
