//! The two text codecs of the wire format: base-58 for addresses and keys,
//! base-64 for binary payloads. Both are computed by outside crates; this
//! module names what they compute and states the facts the rest of the
//! library relies on.

use vstd::prelude::*;

verus! {

#[verifier::external_type_specification]
#[verifier::external_body]
pub struct ExBase58DecodeError(bs58::decode::Error);

#[verifier::external_type_specification]
#[verifier::external_body]
pub struct ExBase64DecodeError(base64::DecodeError);

/// The bytes that `bs58::decode(text).into_vec()` yields, `None` where it fails.
pub uninterp spec fn base58_decode(text: Seq<char>) -> Option<Seq<u8>>;

/// The text that `bs58::encode(bytes).into_string()` yields.
pub uninterp spec fn base58_encode(bytes: Seq<u8>) -> Seq<char>;

/// The bytes that the standard base-64 engine decodes `text` to, `None` where it fails.
pub uninterp spec fn base64_decode(text: Seq<char>) -> Option<Seq<u8>>;

/// The text that the standard base-64 engine encodes `bytes` to.
pub uninterp spec fn base64_encode(bytes: Seq<u8>) -> Seq<char>;

/// Trusted: `bs58::decode(text).into_vec()` with the default alphabet.
///
/// The result is named by `base58_decode`. Base-58 has one text per byte
/// string (leading zero bytes are the leading `1`s, the rest is the number's
/// digits without a leading zero digit), so whatever decodes is the encoding
/// of the bytes it decodes to.
#[verifier::external_body]
pub(crate) fn decode_base58(text: &str) -> (r: Result<Vec<u8>, bs58::decode::Error>)
    ensures
        r matches Ok(bytes) ==> base58_decode(text@) == Some(bytes@),
        r matches Ok(bytes) ==> base58_encode(bytes@) == text@,
        r is Err ==> base58_decode(text@) is None,
{
    bs58::decode(text).into_vec()
}

/// Trusted: `bs58::encode(bytes).into_string()` with the default alphabet.
///
/// The result is named by `base58_encode`, and decoding it gives `bytes` back.
#[verifier::external_body]
pub(crate) fn encode_base58(bytes: &[u8]) -> (r: String)
    ensures
        r@ == base58_encode(bytes@),
        base58_decode(r@) == Some(bytes@),
{
    bs58::encode(bytes).into_string()
}

/// Trusted: `Engine::decode` of `base64::engine::general_purpose::STANDARD`.
///
/// The result is named by `base64_decode`.
#[verifier::external_body]
pub(crate) fn decode_base64(text: &str) -> (r: Result<Vec<u8>, base64::DecodeError>)
    ensures
        r matches Ok(bytes) ==> base64_decode(text@) == Some(bytes@),
        r is Err ==> base64_decode(text@) is None,
{
    base64::Engine::decode(&base64::engine::general_purpose::STANDARD, text)
}

/// Trusted: `Engine::encode` of `base64::engine::general_purpose::STANDARD`.
///
/// The result is named by `base64_encode`, and decoding it gives `bytes`
/// back. The call fails only where the encoded length overflows `usize`,
/// which no slice is long enough for.
#[verifier::external_body]
pub(crate) fn encode_base64(bytes: &[u8]) -> (r: String)
    ensures
        r@ == base64_encode(bytes@),
        base64_decode(r@) == Some(bytes@),
{
    base64::Engine::encode(&base64::engine::general_purpose::STANDARD, bytes)
}

} // verus!
