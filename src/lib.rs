//! Instruction encoding, key material codecs and ed25519 signing for a
//! ledger protocol, with every operation stated as a contract.

pub mod error;
pub mod primitives;
pub mod bytes;
pub mod address;
pub mod keys;
pub mod signing;
pub mod instruction;
pub mod request;
