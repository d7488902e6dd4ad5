//! The bytes of a compiled message in the ledger's own format: what the
//! signers sign and what the ledger receives.

use vstd::prelude::*;
use solana_program::address_lookup_table::AddressLookupTableAccount;
use solana_program::message::v0::Message;
use solana_program::hash;
use solana_program::instruction as ledger;
use crate::address::{address_bytes, Address};
use crate::instruction::{instruction_parts, Instruction};
use crate::message::{CompiledMessage, Freshness};
use crate::table::LookupTable;

verus! {

/// The largest count that the ledger's format can write down for the
/// instructions of a message, the accounts of an instruction and the bytes of
/// a payload.
pub const MAX_WIRE_COUNT: usize = 65535;

/// The ledger's encoding of a message with the given fee payer,
/// instructions, tables and freshness token; `None` where the ledger's
/// library refuses to compile it.
pub uninterp spec fn ledger_message(
    payer: Seq<u8>,
    instructions: Seq<(Seq<u8>, Seq<(Seq<u8>, bool, bool)>, Seq<u8>)>,
    tables: Seq<(Seq<u8>, Seq<Seq<u8>>)>,
    freshness: Seq<u8>,
) -> Option<Seq<u8>>;

/// The instructions as plain values.
pub open spec fn instruction_list_parts(instructions: Seq<Instruction>) -> Seq<
    (Seq<u8>, Seq<(Seq<u8>, bool, bool)>, Seq<u8>),
> {
    Seq::new(instructions.len(), |i: int| instruction_parts(instructions[i]))
}

/// The tables as plain values: the address of each and its entries.
pub open spec fn table_list_parts(tables: Seq<LookupTable>) -> Seq<(Seq<u8>, Seq<Seq<u8>>)> {
    Seq::new(tables.len(), |t: int| (tables[t].address@, address_bytes(tables[t].addresses@)))
}

/// Whether every count in the instructions can be written down in the
/// ledger's format.
pub open spec fn fits_wire(instructions: Seq<Instruction>) -> bool {
    &&& instructions.len() <= MAX_WIRE_COUNT
    &&& forall|i: int|
        0 <= i < instructions.len() ==> (#[trigger] instructions[i]).accounts@.len()
            <= MAX_WIRE_COUNT && instructions[i].payload@.len() <= MAX_WIRE_COUNT
}

/// The bytes that stand for `message` on the ledger, if its format can hold
/// the message.
pub open spec fn wire_bytes(message: CompiledMessage) -> Option<Seq<u8>> {
    if fits_wire(message.instructions@) {
        ledger_message(
            message.fee_payer@,
            instruction_list_parts(message.instructions@),
            table_list_parts(message.tables@),
            message.freshness@,
        )
    } else {
        None
    }
}

/// Calls `solana_program::message::v0::Message::try_compile` and, where that
/// succeeds, `serialize` on the message. Trusted: the bytes depend on the
/// four arguments alone. Serialising fails on a count above 65535, so
/// instructions with such a count are not accepted.
#[verifier::external_body]
fn ledger_encode(
    payer: &Address,
    instructions: &Vec<Instruction>,
    tables: &Vec<LookupTable>,
    freshness: &Freshness,
) -> (bytes: Option<Vec<u8>>)
    requires
        fits_wire(instructions@),
    ensures
        match bytes {
            Some(encoded) => ledger_message(
                payer@,
                instruction_list_parts(instructions@),
                table_list_parts(tables@),
                freshness@,
            ) == Some(encoded@),
            None => ledger_message(
                payer@,
                instruction_list_parts(instructions@),
                table_list_parts(tables@),
                freshness@,
            ) is None,
        },
{
    let ixs = Vec::from_iter(instructions.iter().map(|i| ledger::Instruction::new_with_bytes(
        i.program.bytes.into(),
        &i.payload,
        i.accounts.iter().map(|a| ledger::AccountMeta {
            pubkey: a.address.bytes.into(),
            is_signer: a.signer,
            is_writable: a.writable,
        }).collect(),
    )));
    let alts = Vec::from_iter(tables.iter().map(|t| AddressLookupTableAccount {
        key: t.address.bytes.into(),
        addresses: t.addresses.iter().map(|a| a.bytes.into()).collect(),
    }));
    Message::try_compile(&payer.bytes.into(), &ixs, &alts, hash::Hash::new_from_array(freshness.bytes)).ok().as_ref().map(Message::serialize)
}

/// Whether every count in the instructions can be written down in the
/// ledger's format.
fn check_fits_wire(instructions: &Vec<Instruction>) -> (fits: bool)
    ensures
        fits == fits_wire(instructions@),
{
    if instructions.len() > MAX_WIRE_COUNT {
        return false;
    }
    let mut i: usize = 0;
    while i < instructions.len()
        invariant
            i <= instructions@.len(),
            instructions@.len() <= MAX_WIRE_COUNT,
            forall|k: int|
                0 <= k < i ==> (#[trigger] instructions@[k]).accounts@.len() <= MAX_WIRE_COUNT
                    && instructions@[k].payload@.len() <= MAX_WIRE_COUNT,
        decreases instructions@.len() - i,
    {
        if instructions[i].accounts.len() > MAX_WIRE_COUNT || instructions[i].payload.len()
            > MAX_WIRE_COUNT {
            return false;
        }
        i = i + 1;
    }
    true
}

/// The bytes that stand for `message` on the ledger, which its signers sign.
/// `None` where the ledger's format cannot hold the message.
///
/// The ledger's format keeps the address of every signer and of every
/// program in the message itself, whatever the tables hold.
pub fn encode(message: &CompiledMessage) -> (bytes: Option<Vec<u8>>)
    ensures
        match bytes {
            Some(encoded) => wire_bytes(*message) == Some(encoded@),
            None => wire_bytes(*message) is None,
        },
{
    if check_fits_wire(&message.instructions) {
        ledger_encode(&message.fee_payer, &message.instructions, &message.tables, &message.freshness)
    } else {
        None
    }
}

} // verus!
