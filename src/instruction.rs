//! The instruction encoder: each operation becomes a program id, an ordered
//! list of accounts and a byte payload, laid out exactly as the ledger
//! programs expect.
use crate::address::Address;
use crate::bytes::{le_bytes, push_u64_le};
use crate::primitives::{base64_encode, base64_text};
use vstd::prelude::*;

verus! {

/// The token program's address.
pub const TOKEN_PROGRAM_ID: [u8; 32] = [
    6, 221, 246, 225, 215, 101, 161, 147, 217, 203, 225, 70, 206, 235, 121, 172,
    28, 180, 133, 237, 95, 91, 55, 145, 58, 140, 245, 133, 126, 255, 0, 169,
];

/// The system program's address, as the native transfer names it.
pub const SYSTEM_PROGRAM_ID: [u8; 32] = [
    0, 0, 0, 0, 0, 0, 0, 0, 0, 0, 0, 0, 0, 0, 0, 0,
    0, 0, 0, 0, 0, 0, 0, 0, 0, 0, 0, 0, 0, 0, 0, 1,
];

/// The ledger programs that the operations address.
#[derive(Clone, Copy, Debug, PartialEq, Eq, Structural)]
pub enum Program {
    Token,
    System,
}

/// The fixed address of each program.
pub open spec fn program_address(p: Program) -> Address {
    match p {
        Program::Token => Address { bytes: TOKEN_PROGRAM_ID },
        Program::System => Address { bytes: SYSTEM_PROGRAM_ID },
    }
}

/// The fixed address of a program.
pub fn program_id(p: Program) -> (r: Address)
    ensures
        r == program_address(p),
{
    match p {
        Program::Token => Address { bytes: TOKEN_PROGRAM_ID },
        Program::System => Address { bytes: SYSTEM_PROGRAM_ID },
    }
}

/// One account slot of an instruction. `is_writable` is `None` where the
/// operation does not say.
#[derive(Clone, Copy, Debug)]
pub struct AccountRef {
    pub address: Address,
    pub is_signer: bool,
    pub is_writable: Option<bool>,
}

/// A complete instruction: the program, its accounts in order, its payload.
#[derive(Debug)]
pub struct EncodedInstruction {
    pub program_id: Address,
    pub accounts: Vec<AccountRef>,
    pub payload: Vec<u8>,
}

/// An operation with its parameters decoded.
#[derive(Clone, Copy, Debug)]
pub enum Operation {
    InitializeMint { mint: Address, authority: Address, decimals: u8 },
    MintTo { mint: Address, destination: Address, authority: Address, amount: u64 },
    TransferToken { owner: Address, destination: Address, mint: Address, amount: u64 },
    TransferNative { from: Address, to: Address, lamports: u64 },
}

/// The account slot with these flags.
pub open spec fn account(address: Address, is_signer: bool, is_writable: Option<bool>) -> AccountRef {
    AccountRef { address, is_signer, is_writable }
}

impl Operation {
    /// The program that carries out the operation.
    pub open spec fn program_spec(self) -> Program {
        match self {
            Operation::TransferNative { .. } => Program::System,
            _ => Program::Token,
        }
    }

    /// The operation's accounts, in the order the program expects.
    pub open spec fn accounts_spec(self) -> Seq<AccountRef> {
        match self {
            Operation::InitializeMint { mint, authority, .. } => seq![
                account(mint, false, Some(true)),
                account(authority, true, Some(false)),
            ],
            Operation::MintTo { mint, destination, authority, .. } => seq![
                account(mint, false, Some(true)),
                account(destination, false, Some(true)),
                account(authority, true, Some(false)),
            ],
            Operation::TransferToken { owner, destination, mint, .. } => seq![
                account(owner, true, None),
                account(destination, false, None),
                account(mint, false, None),
            ],
            Operation::TransferNative { from, to, .. } => seq![
                account(from, true, Some(true)),
                account(to, false, Some(true)),
            ],
        }
    }

    /// The operation's payload: a tag, then its parameter, integers in
    /// little-endian order.
    pub open spec fn payload_spec(self) -> Seq<u8> {
        match self {
            Operation::InitializeMint { decimals, .. } => seq![0u8, decimals],
            Operation::MintTo { amount, .. } => seq![7u8] + le_bytes(amount as nat, 8),
            Operation::TransferToken { amount, .. } => seq![3u8] + le_bytes(amount as nat, 8),
            Operation::TransferNative { lamports, .. } => seq![2u8, 0u8, 0u8, 0u8] + le_bytes(
                lamports as nat,
                8,
            ),
        }
    }

    /// The program that carries out the operation.
    pub fn program(&self) -> (r: Program)
        ensures
            r == self.program_spec(),
    {
        match self {
            Operation::TransferNative { .. } => Program::System,
            _ => Program::Token,
        }
    }
}

/// Whether `ix` is the instruction for `op`.
pub open spec fn encodes(ix: EncodedInstruction, op: Operation) -> bool {
    &&& ix.program_id == program_address(op.program_spec())
    &&& ix.accounts@ == op.accounts_spec()
    &&& ix.payload@ == op.payload_spec()
}

/// The instruction for an operation.
pub fn encode(op: &Operation) -> (r: EncodedInstruction)
    ensures
        encodes(r, *op),
{
    let program_id = program_id(op.program());
    let mut accounts: Vec<AccountRef> = Vec::new();
    let mut payload: Vec<u8> = Vec::new();
    match op {
        Operation::InitializeMint { mint, authority, decimals } => {
            accounts.push(AccountRef { address: *mint, is_signer: false, is_writable: Some(true) });
            accounts.push(
                AccountRef { address: *authority, is_signer: true, is_writable: Some(false) },
            );
            payload.push(0u8);
            payload.push(*decimals);
        },
        Operation::MintTo { mint, destination, authority, amount } => {
            accounts.push(AccountRef { address: *mint, is_signer: false, is_writable: Some(true) });
            accounts.push(
                AccountRef { address: *destination, is_signer: false, is_writable: Some(true) },
            );
            accounts.push(
                AccountRef { address: *authority, is_signer: true, is_writable: Some(false) },
            );
            payload.push(7u8);
            push_u64_le(&mut payload, *amount);
        },
        Operation::TransferToken { owner, destination, mint, amount } => {
            accounts.push(AccountRef { address: *owner, is_signer: true, is_writable: None });
            accounts.push(AccountRef { address: *destination, is_signer: false, is_writable: None });
            accounts.push(AccountRef { address: *mint, is_signer: false, is_writable: None });
            payload.push(3u8);
            push_u64_le(&mut payload, *amount);
        },
        Operation::TransferNative { from, to, lamports } => {
            accounts.push(AccountRef { address: *from, is_signer: true, is_writable: Some(true) });
            accounts.push(AccountRef { address: *to, is_signer: false, is_writable: Some(true) });
            payload.push(2u8);
            payload.push(0u8);
            payload.push(0u8);
            payload.push(0u8);
            push_u64_le(&mut payload, *lamports);
        },
    }
    let r = EncodedInstruction { program_id, accounts, payload };
    assert(r.accounts@ =~= op.accounts_spec());
    assert(r.payload@ =~= op.payload_spec());
    r
}

/// The standard base64 text of an instruction's payload.
pub fn payload_text(ix: &EncodedInstruction) -> (r: String)
    ensures
        r@ == base64_text(ix.payload@),
{
    base64_encode(ix.payload.as_slice())
}

} // verus!
