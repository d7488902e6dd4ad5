//! Instructions as the caller hands them over, and the three instructions
//! that the lifecycle itself needs, each built by the ledger's own library.

use vstd::prelude::*;
use crate::address::{address_bytes, Address};
use crate::deriver::table_address;

verus! {

/// One account that an instruction refers to.
#[derive(Clone, Copy, Debug, PartialEq, Eq)]
pub struct AccountMeta {
    /// The account.
    pub address: Address,
    /// Whether the account has to sign the transaction.
    pub signer: bool,
    /// Whether the instruction may change the account.
    pub writable: bool,
}

/// An operation for the ledger: the program to run, the accounts it refers
/// to, and bytes that only the program reads.
#[derive(Clone, Debug, PartialEq, Eq)]
pub struct Instruction {
    /// The program to run.
    pub program: Address,
    /// The accounts referred to, in the order the program expects.
    pub accounts: Vec<AccountMeta>,
    /// What the program is told.
    pub payload: Vec<u8>,
}

/// The bytes of the system program's address.
pub open spec fn system_program_bytes() -> Seq<u8> {
    Seq::new(32, |i: int| 0u8)
}

/// The bytes of the lookup table program's address.
pub open spec fn table_program_bytes() -> Seq<u8> {
    seq![
        2u8, 119, 166, 175, 151, 51, 155, 122, 200, 141, 24, 146, 201, 4, 70, 245,
        0, 2, 48, 146, 102, 246, 46, 83, 193, 24, 36, 73, 130, 0, 0, 0,
    ]
}

/// An account reference with the given flags.
pub open spec fn meta(address: Seq<u8>, signer: bool, writable: bool) -> (Seq<u8>, bool, bool) {
    (address, signer, writable)
}

/// The accounts of an instruction as plain values: address bytes, signer
/// flag, writable flag.
pub open spec fn account_parts(accounts: Seq<AccountMeta>) -> Seq<(Seq<u8>, bool, bool)> {
    Seq::new(accounts.len(), |i: int| (accounts[i].address@, accounts[i].signer, accounts[i].writable))
}

/// An instruction as plain values: program bytes, accounts, payload.
pub open spec fn instruction_parts(instruction: Instruction) -> (
    Seq<u8>,
    Seq<(Seq<u8>, bool, bool)>,
    Seq<u8>,
) {
    (instruction.program@, account_parts(instruction.accounts@), instruction.payload@)
}

/// What the ledger's library puts into a creation instruction beyond the
/// documented accounts: the payload, and the table address that it derives
/// by itself.
pub uninterp spec fn creation_built(authority: Seq<u8>, payer: Seq<u8>, creation_slot: u64) -> (
    Seq<u8>,
    Seq<u8>,
);

/// The payload of the extension instruction that the ledger's library builds.
pub uninterp spec fn extension_payload(
    table: Seq<u8>,
    authority: Seq<u8>,
    payer: Seq<u8>,
    addresses: Seq<Seq<u8>>,
) -> Seq<u8>;

/// The payload of the transfer instruction that the ledger's library builds.
pub uninterp spec fn transfer_payload(from: Seq<u8>, to: Seq<u8>, lamports: u64) -> Seq<u8>;

/// The creation instruction for a table of `authority`, paid for by `payer`.
pub open spec fn creation_instruction_parts(
    authority: Seq<u8>,
    payer: Seq<u8>,
    creation_slot: u64,
) -> (Seq<u8>, Seq<(Seq<u8>, bool, bool)>, Seq<u8>) {
    let built = creation_built(authority, payer, creation_slot);
    (
        table_program_bytes(),
        seq![
            meta(built.1, false, true),
            meta(authority, false, false),
            meta(payer, true, true),
            meta(system_program_bytes(), false, false),
        ],
        built.0,
    )
}

/// The instruction that appends `addresses` to `table`.
pub open spec fn extension_instruction_parts(
    table: Seq<u8>,
    authority: Seq<u8>,
    payer: Seq<u8>,
    addresses: Seq<Seq<u8>>,
) -> (Seq<u8>, Seq<(Seq<u8>, bool, bool)>, Seq<u8>) {
    (
        table_program_bytes(),
        seq![
            meta(table, false, true),
            meta(authority, true, false),
            meta(payer, true, true),
            meta(system_program_bytes(), false, false),
        ],
        extension_payload(table, authority, payer, addresses),
    )
}

/// The instruction that moves `lamports` from `from` to `to`.
pub open spec fn transfer_instruction_parts(from: Seq<u8>, to: Seq<u8>, lamports: u64) -> (
    Seq<u8>,
    Seq<(Seq<u8>, bool, bool)>,
    Seq<u8>,
) {
    (
        system_program_bytes(),
        seq![meta(from, true, true), meta(to, false, true)],
        transfer_payload(from, to, lamports),
    )
}

/// Calls `solana_program::address_lookup_table::instruction::create_lookup_table`.
/// Trusted: the instruction runs the lookup table program on the four accounts
/// that the ledger documents (the new table, writable; the authority; the
/// payer, signing and writable; the system program), and the address returned
/// with it is the one of its first account. The payload and that address are
/// named, not described. The call fails where no table address exists for the
/// authority and the slot, so such a pair is not accepted.
#[verifier::external_body]
pub(crate) fn build_creation(authority: &Address, payer: &Address, creation_slot: u64) -> (built: (
    Instruction,
    Address,
))
    requires
        table_address(authority@, creation_slot) is Some,
    ensures
        built.0.program@ == table_program_bytes(),
        account_parts(built.0.accounts@) == seq![
            meta(built.1@, false, true),
            meta(authority@, false, false),
            meta(payer@, true, true),
            meta(system_program_bytes(), false, false),
        ],
        built.0.payload@ == creation_built(authority@, payer@, creation_slot).0,
        built.1@ == creation_built(authority@, payer@, creation_slot).1,
{
    let (ix, key) = solana_program::address_lookup_table::instruction::create_lookup_table(
        solana_program::pubkey::Pubkey::from(authority.bytes),
        solana_program::pubkey::Pubkey::from(payer.bytes),
        creation_slot,
    );
    let accounts = ix.accounts.iter().map(|m| AccountMeta {
        address: Address { bytes: m.pubkey.to_bytes() },
        signer: m.is_signer,
        writable: m.is_writable,
    }).collect();
    (
        Instruction { program: Address { bytes: ix.program_id.to_bytes() }, accounts, payload: ix.data },
        Address { bytes: key.to_bytes() },
    )
}

/// Calls `solana_program::address_lookup_table::instruction::extend_lookup_table`
/// with a payer. Trusted: the instruction runs the lookup table program on the
/// four accounts that the ledger documents for an extension that is paid for
/// (the table, writable; the authority, signing; the payer, signing and
/// writable; the system program). The payload is named, not described.
#[verifier::external_body]
pub(crate) fn build_extension(
    table: &Address,
    authority: &Address,
    payer: &Address,
    addresses: &Vec<Address>,
) -> (built: Instruction)
    ensures
        built.program@ == table_program_bytes(),
        account_parts(built.accounts@) == seq![
            meta(table@, false, true),
            meta(authority@, true, false),
            meta(payer@, true, true),
            meta(system_program_bytes(), false, false),
        ],
        built.payload@ == extension_payload(
            table@,
            authority@,
            payer@,
            address_bytes(addresses@),
        ),
{
    let ix = solana_program::address_lookup_table::instruction::extend_lookup_table(
        solana_program::pubkey::Pubkey::from(table.bytes),
        solana_program::pubkey::Pubkey::from(authority.bytes),
        Some(solana_program::pubkey::Pubkey::from(payer.bytes)),
        addresses.iter().map(|a| solana_program::pubkey::Pubkey::from(a.bytes)).collect(),
    );
    let accounts = ix.accounts.iter().map(|m| AccountMeta {
        address: Address { bytes: m.pubkey.to_bytes() },
        signer: m.is_signer,
        writable: m.is_writable,
    }).collect();
    Instruction { program: Address { bytes: ix.program_id.to_bytes() }, accounts, payload: ix.data }
}

/// Calls `solana_program::system_instruction::transfer`. Trusted: the
/// instruction runs the system program on the funding account, signing and
/// writable, and the recipient, writable. The payload is named, not described.
#[verifier::external_body]
pub(crate) fn build_transfer(from: &Address, to: &Address, lamports: u64) -> (built: Instruction)
    ensures
        built.program@ == system_program_bytes(),
        account_parts(built.accounts@) == seq![meta(from@, true, true), meta(to@, false, true)],
        built.payload@ == transfer_payload(from@, to@, lamports),
{
    let ix = solana_program::system_instruction::transfer(
        &solana_program::pubkey::Pubkey::from(from.bytes),
        &solana_program::pubkey::Pubkey::from(to.bytes),
        lamports,
    );
    let accounts = ix.accounts.iter().map(|m| AccountMeta {
        address: Address { bytes: m.pubkey.to_bytes() },
        signer: m.is_signer,
        writable: m.is_writable,
    }).collect();
    Instruction { program: Address { bytes: ix.program_id.to_bytes() }, accounts, payload: ix.data }
}

/// An instruction that moves `lamports` from `from` to `to`.
pub fn transfer(from: &Address, to: &Address, lamports: u64) -> (instruction: Instruction)
    ensures
        instruction_parts(instruction) == transfer_instruction_parts(from@, to@, lamports),
{
    build_transfer(from, to, lamports)
}

} // verus!
