//! Keypairs: a 32-byte secret and the public key derived from it, written
//! together as 64 bytes of base-58 text.

use vstd::prelude::*;
use crate::address::PublicAddress;
use crate::bytes::{join_32, same_32, take_32};
use crate::encoding::{base58_decode, base58_encode, decode_base58, encode_base58};
use crate::error::ApiError;

verus! {

/// Number of bytes in a secret.
pub const SECRET_BYTES: usize = 32;

/// Number of bytes in the encoding of a keypair.
pub const KEYPAIR_BYTES: usize = 64;

/// The Ed25519 public key that belongs to a 32-byte secret.
pub uninterp spec fn derived_public_key(secret: Seq<u8>) -> Seq<u8>;

/// Whether `bytes` encode a keypair: a secret followed by its own public key.
pub open spec fn is_keypair_encoding(bytes: Seq<u8>) -> bool {
    &&& bytes.len() == KEYPAIR_BYTES
    &&& bytes.subrange(32, 64) == derived_public_key(bytes.subrange(0, 32))
}

/// The keypair that `text` denotes: the 64 bytes it decodes to, where these
/// encode a keypair.
pub open spec fn keypair_of_text(text: Seq<char>) -> Option<Seq<u8>> {
    match base58_decode(text) {
        Some(bytes) => if is_keypair_encoding(bytes) {
            Some(bytes)
        } else {
            None
        },
        None => None,
    }
}

/// Trusted: `keypair_from_seed` of `solana_sdk::signer::keypair`, then
/// `Signer::pubkey` on the keypair it made.
///
/// On a 32-byte secret the call succeeds, and the public key it computes is
/// named by `derived_public_key`.
#[verifier::external_body]
fn derive_public_key(secret: &[u8; 32]) -> (r: Option<[u8; 32]>)
    ensures
        r is Some,
        r matches Some(public) ==> public@ == derived_public_key(secret@),
{
    match solana_sdk::signer::keypair::keypair_from_seed(secret) {
        Ok(keypair) => Some(solana_sdk::signer::Signer::pubkey(&keypair).to_bytes()),
        Err(_) => None,
    }
}

/// Trusted: `Keypair::new` of `solana_sdk::signer::keypair`, of which the
/// secret half is kept.
///
/// The secret comes from the operating system's random source; nothing is
/// claimed of its value.
#[verifier::external_body]
fn fresh_secret() -> (secret: [u8; 32])
{
    solana_sdk::signer::keypair::Keypair::new().secret().to_bytes()
}

/// A secret together with the public key derived from it.
#[derive(Debug)]
pub struct Keypair {
    secret: [u8; 32],
    public: PublicAddress,
}

impl View for Keypair {
    type V = Seq<u8>;

    /// The 64-byte encoding: the secret, then the public key.
    closed spec fn view(&self) -> Seq<u8> {
        self.secret@ + self.public@
    }
}

impl Keypair {
    #[verifier::type_invariant]
    spec fn consistent(self) -> bool {
        self.public@ == derived_public_key(self.secret@)
    }

    /// The secret half of the encoding.
    pub open spec fn secret_bytes(self) -> Seq<u8> {
        self@.subrange(0, 32)
    }

    /// The public half of the encoding.
    pub open spec fn public_bytes(self) -> Seq<u8> {
        self@.subrange(32, 64)
    }

    /// The encoding falls into the two fields.
    proof fn lemma_halves(self)
        ensures
            self@.len() == KEYPAIR_BYTES,
            self.secret_bytes() == self.secret@,
            self.public_bytes() == self.public@,
    {
        assert(self@.subrange(0, 32) =~= self.secret@);
        assert(self@.subrange(32, 64) =~= self.public@);
    }

    /// The keypair of a secret.
    pub fn from_secret(secret: [u8; 32]) -> (keypair: Keypair)
        ensures
            keypair.secret_bytes() == secret@,
            is_keypair_encoding(keypair@),
    {
        let public: [u8; 32] = derive_public_key(&secret).unwrap();
        let keypair = Keypair { secret, public: PublicAddress { bytes: public } };
        proof {
            keypair.lemma_halves();
        }
        keypair
    }

    /// Whether `bytes` are 64 and their second half is `public`: what is
    /// left to check of an encoding once the public key of its first half is
    /// known.
    pub fn closes_with(bytes: &[u8], public: &PublicAddress) -> (fits: bool)
        ensures
            fits == (bytes@.len() == KEYPAIR_BYTES && bytes@.subrange(32, 64) == public@),
    {
        if bytes.len() != KEYPAIR_BYTES {
            return false;
        }
        let claimed: [u8; 32] = take_32(bytes, 32);
        same_32(&claimed, &public.bytes)
    }

    /// Reads a keypair from its 64-byte encoding.
    ///
    /// Fails with `InvalidSecret` on every other length, and where the second
    /// half is not the public key of the first.
    pub fn from_bytes(bytes: &[u8]) -> (r: Result<Keypair, ApiError>)
        ensures
            is_keypair_encoding(bytes@) ==> (r matches Ok(keypair) && keypair@ == bytes@),
            !is_keypair_encoding(bytes@) ==> r == Err::<Keypair, ApiError>(ApiError::InvalidSecret),
    {
        if bytes.len() != KEYPAIR_BYTES {
            return Err(ApiError::InvalidSecret);
        }
        let keypair = Keypair::from_secret(take_32(bytes, 0));
        proof {
            keypair.lemma_halves();
            assert(bytes@ =~= bytes@.subrange(0, 32) + bytes@.subrange(32, 64));
        }
        if Keypair::closes_with(bytes, &keypair.public) {
            assert(keypair@ =~= bytes@);
            Ok(keypair)
        } else {
            Err(ApiError::InvalidSecret)
        }
    }

    /// The public key.
    pub fn pubkey(&self) -> (public: PublicAddress)
        ensures
            public@ == self.public_bytes(),
            public@ == derived_public_key(self.secret_bytes()),
    {
        proof {
            use_type_invariant(self);
            self.lemma_halves();
        }
        self.public
    }

    /// The secret.
    pub fn secret(&self) -> (secret: [u8; 32])
        ensures
            secret@ == self.secret_bytes(),
    {
        proof {
            self.lemma_halves();
        }
        self.secret
    }

    /// The 64-byte encoding.
    pub fn to_bytes(&self) -> (bytes: [u8; 64])
        ensures
            bytes@ == self@,
            is_keypair_encoding(bytes@),
    {
        proof {
            use_type_invariant(self);
            self.lemma_halves();
        }
        join_32(&self.secret, &self.public.bytes)
    }

    /// The base-58 text of the 64-byte encoding.
    pub fn to_base58(&self) -> (text: String)
        ensures
            text@ == base58_encode(self@),
            keypair_of_text(text@) == Some(self@),
    {
        let bytes: [u8; 64] = self.to_bytes();
        encode_base58(bytes.as_slice())
    }
}

/// Parses the base-58 text of a keypair.
///
/// Succeeds exactly on the texts that denote a keypair; every other text is
/// `InvalidSecret`.
pub fn parse_secret(text: &str) -> (r: Result<Keypair, ApiError>)
    ensures
        r matches Ok(keypair) ==> keypair_of_text(text@) == Some(keypair@),
        r matches Err(e) ==> (keypair_of_text(text@) is None && e == ApiError::InvalidSecret),
{
    match decode_base58(text) {
        Ok(bytes) => Keypair::from_bytes(bytes.as_slice()),
        Err(_) => Err(ApiError::InvalidSecret),
    }
}

/// Makes a fresh keypair from the operating system's random source.
///
/// Whatever secret was drawn, the public key is the one derived from it.
pub fn generate_keypair() -> (keypair: Keypair)
    ensures
        is_keypair_encoding(keypair@),
        keypair.public_bytes() == derived_public_key(keypair.secret_bytes()),
{
    Keypair::from_secret(fresh_secret())
}

} // verus!
