//! Operation requests as they arrive, with addresses as text, and their
//! validation into operations.
use crate::address::{decode_address, lemma_address_eq, Address};
use crate::error::{AddressField, CoreError};
use crate::instruction::{encode, encodes, EncodedInstruction, Operation};
use crate::primitives::address_bytes;
use vstd::prelude::*;

verus! {

/// An operation with its addresses as base58 text.
#[derive(Clone, Debug)]
pub enum OperationRequest {
    InitializeMint { mint: String, authority: String, decimals: u8 },
    MintTo { mint: String, destination: String, authority: String, amount: u64 },
    TransferToken { owner: String, destination: String, mint: String, amount: u64 },
    TransferNative { from: String, to: String, lamports: u64 },
}

/// Whether an address text names some address.
pub open spec fn names_address(text: Seq<char>) -> bool {
    address_bytes(text) is Some
}

/// Whether an address text names the address `a`.
pub open spec fn names(text: Seq<char>, a: Address) -> bool {
    address_bytes(text) == Some(a.bytes@)
}

/// The first check that a request fails, in this order: an empty address
/// text, a zero amount, an address text that names no address (for a native
/// transfer, the sender's before the recipient's), and for a native transfer
/// the same address on both sides. `None` where it passes
/// them all.
pub open spec fn request_error(req: OperationRequest) -> Option<CoreError> {
    match req {
        OperationRequest::InitializeMint { mint, authority, .. } => if mint@.len() == 0
            || authority@.len() == 0 {
            Some(CoreError::MissingField)
        } else if !names_address(mint@) || !names_address(authority@) {
            Some(CoreError::InvalidAddress(AddressField::PublicKey))
        } else {
            None
        },
        OperationRequest::MintTo { mint, destination, authority, amount } => if mint@.len() == 0
            || destination@.len() == 0 || authority@.len() == 0 {
            Some(CoreError::MissingField)
        } else if amount == 0 {
            Some(CoreError::InvalidAmount)
        } else if !names_address(mint@) || !names_address(destination@) || !names_address(
            authority@,
        ) {
            Some(CoreError::InvalidAddress(AddressField::PublicKey))
        } else {
            None
        },
        OperationRequest::TransferToken { owner, destination, mint, amount } => if owner@.len()
            == 0 || destination@.len() == 0 || mint@.len() == 0 {
            Some(CoreError::MissingField)
        } else if amount == 0 {
            Some(CoreError::InvalidAmount)
        } else if !names_address(owner@) || !names_address(destination@) || !names_address(
            mint@,
        ) {
            Some(CoreError::InvalidAddress(AddressField::PublicKey))
        } else {
            None
        },
        OperationRequest::TransferNative { from, to, lamports } => if from@.len() == 0
            || to@.len() == 0 {
            Some(CoreError::MissingField)
        } else if lamports == 0 {
            Some(CoreError::InvalidAmount)
        } else if !names_address(from@) {
            Some(CoreError::InvalidAddress(AddressField::Sender))
        } else if !names_address(to@) {
            Some(CoreError::InvalidAddress(AddressField::Recipient))
        } else if address_bytes(from@) == address_bytes(to@) {
            Some(CoreError::SameAddress)
        } else {
            None
        },
    }
}

/// Whether `op` is the request's operation: the same kind, each address the
/// one its text names, and the same numbers.
pub open spec fn decodes_to(req: OperationRequest, op: Operation) -> bool {
    match (req, op) {
        (
            OperationRequest::InitializeMint { mint, authority, decimals },
            Operation::InitializeMint { mint: m, authority: a, decimals: d },
        ) => names(mint@, m) && names(authority@, a) && decimals == d,
        (
            OperationRequest::MintTo { mint, destination, authority, amount },
            Operation::MintTo { mint: m, destination: t, authority: a, amount: n },
        ) => names(mint@, m) && names(destination@, t) && names(authority@, a) && amount == n,
        (
            OperationRequest::TransferToken { owner, destination, mint, amount },
            Operation::TransferToken { owner: o, destination: t, mint: m, amount: n },
        ) => names(owner@, o) && names(destination@, t) && names(mint@, m) && amount == n,
        (
            OperationRequest::TransferNative { from, to, lamports },
            Operation::TransferNative { from: f, to: t, lamports: n },
        ) => names(from@, f) && names(to@, t) && lamports == n,
        _ => false,
    }
}

/// The address that the text of a request's `field` names, or
/// `InvalidAddress` for that field.
fn address_field(text: &String, field: AddressField) -> (r: Result<Address, CoreError>)
    ensures
        match r {
            Ok(a) => names(text@, a),
            Err(e) => e == CoreError::InvalidAddress(field) && !names_address(text@),
        },
{
    match decode_address(text.as_str()) {
        Ok(a) => Ok(a),
        Err(_) => Err(CoreError::InvalidAddress(field)),
    }
}

/// The operation that a request stands for, or the first check it fails.
pub fn validate(req: &OperationRequest) -> (r: Result<Operation, CoreError>)
    ensures
        match r {
            Ok(op) => request_error(*req) is None && decodes_to(*req, op),
            Err(e) => request_error(*req) == Some(e),
        },
{
    match req {
        OperationRequest::InitializeMint { mint, authority, decimals } => {
            if mint.as_str().is_empty() || authority.as_str().is_empty() {
                return Err(CoreError::MissingField);
            }
            let m = match address_field(mint, AddressField::PublicKey) {
                Ok(a) => a,
                Err(e) => {
                    return Err(e);
                },
            };
            let a = match address_field(authority, AddressField::PublicKey) {
                Ok(a) => a,
                Err(e) => {
                    return Err(e);
                },
            };
            Ok(Operation::InitializeMint { mint: m, authority: a, decimals: *decimals })
        },
        OperationRequest::MintTo { mint, destination, authority, amount } => {
            if mint.as_str().is_empty() || destination.as_str().is_empty()
                || authority.as_str().is_empty() {
                return Err(CoreError::MissingField);
            }
            if *amount == 0 {
                return Err(CoreError::InvalidAmount);
            }
            let m = match address_field(mint, AddressField::PublicKey) {
                Ok(a) => a,
                Err(e) => {
                    return Err(e);
                },
            };
            let t = match address_field(destination, AddressField::PublicKey) {
                Ok(a) => a,
                Err(e) => {
                    return Err(e);
                },
            };
            let a = match address_field(authority, AddressField::PublicKey) {
                Ok(a) => a,
                Err(e) => {
                    return Err(e);
                },
            };
            Ok(Operation::MintTo { mint: m, destination: t, authority: a, amount: *amount })
        },
        OperationRequest::TransferToken { owner, destination, mint, amount } => {
            if owner.as_str().is_empty() || destination.as_str().is_empty()
                || mint.as_str().is_empty() {
                return Err(CoreError::MissingField);
            }
            if *amount == 0 {
                return Err(CoreError::InvalidAmount);
            }
            let o = match address_field(owner, AddressField::PublicKey) {
                Ok(a) => a,
                Err(e) => {
                    return Err(e);
                },
            };
            let t = match address_field(destination, AddressField::PublicKey) {
                Ok(a) => a,
                Err(e) => {
                    return Err(e);
                },
            };
            let m = match address_field(mint, AddressField::PublicKey) {
                Ok(a) => a,
                Err(e) => {
                    return Err(e);
                },
            };
            Ok(Operation::TransferToken { owner: o, destination: t, mint: m, amount: *amount })
        },
        OperationRequest::TransferNative { from, to, lamports } => {
            if from.as_str().is_empty() || to.as_str().is_empty() {
                return Err(CoreError::MissingField);
            }
            if *lamports == 0 {
                return Err(CoreError::InvalidAmount);
            }
            let f = match address_field(from, AddressField::Sender) {
                Ok(a) => a,
                Err(e) => {
                    return Err(e);
                },
            };
            let t = match address_field(to, AddressField::Recipient) {
                Ok(a) => a,
                Err(e) => {
                    return Err(e);
                },
            };
            proof {
                lemma_address_eq(f, t);
            }
            if f == t {
                return Err(CoreError::SameAddress);
            }
            Ok(Operation::TransferNative { from: f, to: t, lamports: *lamports })
        },
    }
}

/// The instruction that a request stands for, or the first check it fails;
/// nothing is encoded for a request that fails a check.
pub fn build_instruction(req: &OperationRequest) -> (r: Result<EncodedInstruction, CoreError>)
    ensures
        match r {
            Ok(ix) => request_error(*req) is None && exists|op: Operation|
                decodes_to(*req, op) && encodes(ix, op),
            Err(e) => request_error(*req) == Some(e),
        },
{
    match validate(req) {
        Ok(op) => {
            let ix = encode(&op);
            assert(decodes_to(*req, op) && encodes(ix, op));
            Ok(ix)
        },
        Err(e) => Err(e),
    }
}

/// A native transfer whose two address texts name the same address is
/// refused as a transfer to the same address, however the texts are
/// written, once its fields are present and its amount is positive.
pub proof fn lemma_self_transfer_refused(from: String, to: String, lamports: u64)
    requires
        from@.len() > 0,
        to@.len() > 0,
        lamports > 0,
        names_address(from@),
        address_bytes(from@) == address_bytes(to@),
    ensures
        request_error(OperationRequest::TransferNative { from, to, lamports }) == Some(
            CoreError::SameAddress,
        ),
{
}

/// Two native transfers whose address texts name the same addresses, with
/// the same amount, meet the same checks.
pub proof fn lemma_transfer_checks_follow_addresses(
    from: String,
    to: String,
    from2: String,
    to2: String,
    lamports: u64,
)
    requires
        from@.len() > 0 && to@.len() > 0 && from2@.len() > 0 && to2@.len() > 0,
        address_bytes(from@) == address_bytes(from2@),
        address_bytes(to@) == address_bytes(to2@),
    ensures
        request_error(OperationRequest::TransferNative { from, to, lamports }) == request_error(
            OperationRequest::TransferNative { from: from2, to: to2, lamports },
        ),
{
}

} // verus!
