//! The URL-safe base64 alphabet, as the `base64` crate reads and writes it.

use vstd::prelude::*;

verus! {

/// `base64`'s decoding error, carried opaquely.
#[verifier::external_type_specification]
#[verifier::external_body]
pub struct ExDecodeError(::base64::DecodeError);

/// The bytes that `base64`'s padded URL-safe engine decodes a text to;
/// `None` where it rejects the text.
pub uninterp spec fn url_safe_decoded(text: Seq<u8>) -> Option<Seq<u8>>;

/// The text that `base64`'s unpadded URL-safe engine encodes bytes to.
pub uninterp spec fn url_safe_no_pad_encoded(bytes: Seq<u8>) -> Seq<char>;

/// Decodes a text with `base64::Engine::decode` on the engine
/// `base64::engine::general_purpose::URL_SAFE`.
///
/// Trusted: the result depends on the text alone.
#[verifier::external_body]
pub(crate) fn url_safe_decode(text: &[u8]) -> (decoded: Result<Vec<u8>, ::base64::DecodeError>)
    ensures
        match decoded {
            Ok(bytes) => url_safe_decoded(text@) == Some(bytes@),
            Err(_) => url_safe_decoded(text@) is None,
        },
{
    ::base64::Engine::decode(&::base64::engine::general_purpose::URL_SAFE, text)
}

/// Encodes 64 bytes with `base64::Engine::encode` on the engine
/// `base64::engine::general_purpose::URL_SAFE_NO_PAD`.
///
/// Trusted: the result depends on the bytes alone.
#[verifier::external_body]
pub(crate) fn url_safe_no_pad_encode(bytes: &[u8; 64]) -> (text: String)
    ensures
        text@ == url_safe_no_pad_encoded(bytes@),
{
    ::base64::Engine::encode(&::base64::engine::general_purpose::URL_SAFE_NO_PAD, bytes)
}

} // verus!
