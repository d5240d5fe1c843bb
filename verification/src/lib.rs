//! Stateless construction of ledger primitives: address and key codecs,
//! unsigned instruction descriptors, message signatures and their
//! verification, and the uniform response envelope that carries them.

mod bytes;
pub mod encoding;
pub mod error;
pub mod address;
pub mod keypair;
pub mod signature;
pub mod instruction;
pub mod response;
pub mod handlers;
