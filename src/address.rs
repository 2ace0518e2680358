//! Addresses: 32-byte values with a canonical base58 text.
use crate::bytes::bytes_equal;
use crate::error::{AddressField, CoreError};
use crate::primitives::{address_bytes, address_text, pubkey_from_text, pubkey_to_text};
use vstd::prelude::*;

verus! {

/// A 32-byte account or program address.
#[derive(Clone, Copy, Debug, Eq)]
pub struct Address {
    pub bytes: [u8; 32],
}

impl PartialEq for Address {
    fn eq(&self, other: &Address) -> (r: bool) {
        bytes_equal(&self.bytes, &other.bytes)
    }
}

impl vstd::std_specs::cmp::PartialEqSpecImpl for Address {
    open spec fn obeys_eq_spec() -> bool {
        true
    }

    open spec fn eq_spec(&self, other: &Address) -> bool {
        self.bytes@ == other.bytes@
    }
}

impl Address {
    /// The address made of these bytes.
    pub fn from_bytes(bytes: [u8; 32]) -> (r: Address)
        ensures
            r.bytes == bytes,
    {
        Address { bytes }
    }

    /// The address's bytes.
    pub fn to_bytes(&self) -> (r: [u8; 32])
        ensures
            r == self.bytes,
    {
        self.bytes
    }
}

/// What decoding a public-key text yields: its 32 bytes, or
/// `InvalidAddress` for a public key.
pub open spec fn address_outcome(text: Seq<char>) -> Result<Seq<u8>, CoreError> {
    match address_bytes(text) {
        Some(b) => Ok(b),
        None => Err(CoreError::InvalidAddress(AddressField::PublicKey)),
    }
}

/// The canonical text of an address. Decoding it gives back the same bytes.
pub fn encode_address(address: &Address) -> (r: String)
    ensures
        r@ == address_text(address.bytes@),
        r@.len() > 0,
        address_outcome(r@) == Ok::<Seq<u8>, CoreError>(address.bytes@),
{
    pubkey_to_text(&address.bytes)
}

/// The address that a text names; `InvalidAddress` where the text is not
/// base58 or does not decode to exactly 32 bytes.
pub fn decode_address(text: &str) -> (r: Result<Address, CoreError>)
    ensures
        match r {
            Ok(a) => address_outcome(text@) == Ok::<Seq<u8>, CoreError>(a.bytes@),
            Err(e) => address_outcome(text@) == Err::<Seq<u8>, CoreError>(e),
        },
{
    match pubkey_from_text(text) {
        Some(bytes) => Ok(Address { bytes }),
        None => Err(CoreError::InvalidAddress(AddressField::PublicKey)),
    }
}

/// Decoding the text of an address gives back that address: where a text
/// decodes to the bytes of `a` (as the text from `encode_address(a)` does)
/// and `decode_address` returns `decoded` for it, `decoded` is `a`.
pub proof fn lemma_address_round_trip(a: Address, decoded: Address, text: Seq<char>)
    requires
        address_outcome(text) == Ok::<Seq<u8>, CoreError>(a.bytes@),
        address_outcome(text) == Ok::<Seq<u8>, CoreError>(decoded.bytes@),
    ensures
        decoded == a,
{
    assert(decoded.bytes =~= a.bytes);
}

/// Two addresses are the same exactly when their bytes are.
pub proof fn lemma_address_eq(a: Address, b: Address)
    ensures
        (a == b) == (a.bytes@ == b.bytes@),
{
    if a.bytes@ == b.bytes@ {
        assert(a.bytes =~= b.bytes);
    }
}

} // verus!
