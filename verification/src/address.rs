//! Public addresses: 32 bytes, written as base-58 text.

use vstd::prelude::*;
use crate::encoding::{base58_decode, base58_encode, decode_base58, encode_base58};
use crate::bytes::take_32;
use crate::error::ApiError;

verus! {

/// Number of bytes in an address.
pub const ADDRESS_BYTES: usize = 32;

/// A 32-byte public key or account address.
#[derive(Clone, Copy, Debug, PartialEq, Eq, Hash)]
pub struct PublicAddress {
    pub bytes: [u8; 32],
}

impl View for PublicAddress {
    type V = Seq<u8>;

    open spec fn view(&self) -> Seq<u8> {
        self.bytes@
    }
}

/// The address that `text` denotes: the 32 bytes it decodes to, where `text`
/// is their base-58 form. Base-58 has one text per byte string, so the
/// second condition holds of every text that decodes at all; it is spelled
/// out because printing is defined by it.
pub open spec fn address_of_text(text: Seq<char>) -> Option<Seq<u8>> {
    match base58_decode(text) {
        Some(bytes) => if bytes.len() == ADDRESS_BYTES && base58_encode(bytes) == text {
            Some(bytes)
        } else {
            None
        },
        None => None,
    }
}

impl PublicAddress {
    /// An address from its bytes.
    pub fn from_bytes(bytes: [u8; 32]) -> (a: PublicAddress)
        ensures
            a@ == bytes@,
    {
        PublicAddress { bytes }
    }

    /// Reads an address from a slice, which must hold exactly 32 bytes.
    pub fn from_slice(bytes: &[u8]) -> (r: Option<PublicAddress>)
        ensures
            bytes@.len() == ADDRESS_BYTES ==> (r matches Some(a) && a@ == bytes@),
            bytes@.len() != ADDRESS_BYTES ==> r is None,
    {
        if bytes.len() != ADDRESS_BYTES {
            return None;
        }
        let block: [u8; 32] = take_32(bytes, 0);
        assert(bytes@.subrange(0, 32) =~= bytes@);
        Some(PublicAddress { bytes: block })
    }

    /// The bytes of the address.
    pub fn to_bytes(&self) -> (b: [u8; 32])
        ensures
            b@ == self@,
    {
        self.bytes
    }

    /// The canonical text of the address.
    pub fn to_base58(&self) -> (text: String)
        ensures
            text@ == base58_encode(self@),
            address_of_text(text@) == Some(self@),
    {
        encode_base58(self.bytes.as_slice())
    }
}

/// Parses the base-58 text of an address.
///
/// Succeeds exactly on the texts that denote an address; every other text,
/// whether it holds a character outside the alphabet or decodes to another
/// length, is `InvalidAddress`.
pub fn parse_address(text: &str) -> (r: Result<PublicAddress, ApiError>)
    ensures
        r matches Ok(a) ==> address_of_text(text@) == Some(a@),
        r matches Ok(a) ==> base58_encode(a@) == text@,
        r matches Err(e) ==> (address_of_text(text@) is None && e == ApiError::InvalidAddress),
{
    match decode_base58(text) {
        Ok(bytes) => match PublicAddress::from_slice(bytes.as_slice()) {
            Some(a) => Ok(a),
            None => Err(ApiError::InvalidAddress),
        },
        Err(_) => Err(ApiError::InvalidAddress),
    }
}

/// Parsing and printing are inverse: a text that parses is the canonical
/// text of the address it parses to.
pub proof fn parse_address_round_trips(text: Seq<char>)
    requires
        address_of_text(text) is Some,
    ensures
        base58_encode(address_of_text(text).unwrap()) == text,
        address_of_text(base58_encode(address_of_text(text).unwrap())) == address_of_text(text),
{
}

} // verus!
