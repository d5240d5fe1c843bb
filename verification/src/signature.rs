//! Signing a message with a keypair, and checking a signature against a
//! public key. The Ed25519 arithmetic is the outside crate's; the framing,
//! the length rule and the error policy are this module's.

use vstd::prelude::*;
use crate::address::PublicAddress;
use crate::bytes::take_64;
use crate::encoding::{base64_decode, base64_encode, encode_base64};
use crate::error::ApiError;
use crate::keypair::Keypair;

verus! {

/// Number of bytes in a signature.
pub const SIGNATURE_BYTES: usize = 64;

/// The Ed25519 signature that the keypair of `secret` gives to `message`.
pub uninterp spec fn ed25519_signature(secret: Seq<u8>, message: Seq<u8>) -> Seq<u8>;

/// Whether strict Ed25519 verification accepts `signature` as the signature
/// of `message` under the key `public`.
pub uninterp spec fn ed25519_verifies(public: Seq<u8>, message: Seq<u8>, signature: Seq<u8>) -> bool;

/// Trusted: `keypair_from_seed` of `solana_sdk::signer::keypair`, then
/// `Signer::sign_message` on the keypair it made.
///
/// On a 32-byte secret the call succeeds. Signing is deterministic in the
/// secret and the message; its 64 bytes are named by `ed25519_signature`.
#[verifier::external_body]
fn sign_with_secret(secret: &[u8; 32], message: &[u8]) -> (r: Option<[u8; 64]>)
    ensures
        r is Some,
        r matches Some(signature) ==> signature@ == ed25519_signature(secret@, message@),
{
    match solana_sdk::signer::keypair::keypair_from_seed(secret) {
        Ok(keypair) => Some(solana_sdk::signer::Signer::sign_message(&keypair, message).into()),
        Err(_) => None,
    }
}

/// Trusted: `Signature::verify` of `solana_sdk::signature`, on the signature
/// made from the 64 bytes.
///
/// The verdict depends on the three byte strings alone and is named by
/// `ed25519_verifies`. A key that is no curve point gives `false`.
#[verifier::external_body]
fn verify_strict(public: &[u8; 32], message: &[u8], signature: &[u8; 64]) -> (valid: bool)
    ensures
        valid == ed25519_verifies(public@, message@, signature@),
{
    solana_sdk::signature::Signature::from(*signature).verify(public, message)
}

/// A 64-byte signature.
#[derive(Clone, Copy, Debug, PartialEq, Eq)]
pub struct Signature {
    pub bytes: [u8; 64],
}

impl View for Signature {
    type V = Seq<u8>;

    open spec fn view(&self) -> Seq<u8> {
        self.bytes@
    }
}

impl Signature {
    /// Reads a signature from a slice.
    ///
    /// Fails with `InvalidSignatureEncoding` unless the slice holds exactly
    /// 64 bytes.
    pub fn from_slice(bytes: &[u8]) -> (r: Result<Signature, ApiError>)
        ensures
            bytes@.len() == SIGNATURE_BYTES ==> (r matches Ok(signature) && signature@ == bytes@),
            bytes@.len() != SIGNATURE_BYTES ==> r == Err::<Signature, ApiError>(
                ApiError::InvalidSignatureEncoding,
            ),
    {
        if bytes.len() != SIGNATURE_BYTES {
            return Err(ApiError::InvalidSignatureEncoding);
        }
        Ok(Signature { bytes: take_64(bytes) })
    }

    /// The bytes of the signature.
    pub fn to_bytes(&self) -> (bytes: [u8; 64])
        ensures
            bytes@ == self@,
    {
        self.bytes
    }

    /// The base-64 text of the signature.
    pub fn to_base64(&self) -> (text: String)
        ensures
            text@ == base64_encode(self@),
            base64_decode(text@) == Some(self@),
    {
        encode_base64(self.bytes.as_slice())
    }
}

/// Signs exactly the bytes of `message`: nothing is hashed or framed here.
pub fn sign(keypair: &Keypair, message: &[u8]) -> (signature: Signature)
    ensures
        signature@ == ed25519_signature(keypair.secret_bytes(), message@),
        signature@.len() == SIGNATURE_BYTES,
{
    let secret: [u8; 32] = keypair.secret();
    Signature { bytes: sign_with_secret(&secret, message).unwrap() }
}

/// What `verify` returns on each input.
pub open spec fn verify_outcome(public: Seq<u8>, message: Seq<u8>, signature: Seq<u8>) -> Result<
    bool,
    ApiError,
> {
    if signature.len() == SIGNATURE_BYTES {
        Ok(ed25519_verifies(public, message, signature))
    } else {
        Err(ApiError::InvalidSignatureEncoding)
    }
}

/// Checks `signature` against `public_key` and `message`.
///
/// A signature of any length but 64 is an error, never a verdict. A
/// signature of the right length that does not fit is `Ok(false)`.
pub fn verify(public_key: &PublicAddress, message: &[u8], signature: &[u8]) -> (r: Result<
    bool,
    ApiError,
>)
    ensures
        r == verify_outcome(public_key@, message@, signature@),
{
    match Signature::from_slice(signature) {
        Ok(signature) => Ok(verify_strict(&public_key.bytes, message, &signature.bytes)),
        Err(e) => Err(e),
    }
}

/// A signature of any length but the scheme's is an error whatever the key
/// and the message are: no verdict is given on it.
pub proof fn malformed_signature_gets_no_verdict(
    public: Seq<u8>,
    message: Seq<u8>,
    signature: Seq<u8>,
)
    requires
        signature.len() != SIGNATURE_BYTES,
    ensures
        verify_outcome(public, message, signature) == Err::<bool, ApiError>(
            ApiError::InvalidSignatureEncoding,
        ),
        !(verify_outcome(public, message, signature) is Ok),
{
}

/// A signature of the scheme's length always gets a verdict. So what `sign`
/// returns is never refused for its encoding: checked against the signer's
/// public key, it gets the scheme's verdict on the scheme's own signature.
pub proof fn well_formed_signature_gets_a_verdict(
    public: Seq<u8>,
    message: Seq<u8>,
    signature: Seq<u8>,
)
    requires
        signature.len() == SIGNATURE_BYTES,
    ensures
        verify_outcome(public, message, signature) == Ok::<bool, ApiError>(
            ed25519_verifies(public, message, signature),
        ),
{
}

} // verus!
