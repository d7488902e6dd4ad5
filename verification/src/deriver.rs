//! The address at which the ledger keeps the lookup table of an authority.

use vstd::prelude::*;
use crate::address::{address_determined_by_bytes, Address};

verus! {

/// The address that the ledger derives for a lookup table from its authority
/// and the slot of its creation; `None` for a pair that has none.
pub uninterp spec fn table_address(authority: Seq<u8>, creation_slot: u64) -> Option<Seq<u8>>;

/// Calls `solana_program::pubkey::Pubkey::try_find_program_address` with the
/// seeds and the program that the ledger's own
/// `derive_lookup_table_address` uses: the authority's bytes, the slot in
/// little-endian bytes, and the lookup table program. Trusted: the result
/// depends on the authority and the slot alone.
#[verifier::external_body]
fn find_table_address(authority: &Address, creation_slot: u64) -> (found: Option<Address>)
    ensures
        match found {
            Some(address) => table_address(authority@, creation_slot) == Some(address@),
            None => table_address(authority@, creation_slot) is None,
        },
{
    solana_program::pubkey::Pubkey::try_find_program_address(
        &[&authority.bytes, &creation_slot.to_le_bytes()],
        &solana_program::address_lookup_table::program::id(),
    ).map(|found| Address { bytes: found.0.to_bytes() })
}

/// Whether `derived` is what the ledger's rule gives for `authority` and
/// `creation_slot`: the table address, or `None` for a pair that has none.
pub open spec fn derives(authority: Address, creation_slot: u64, derived: Option<Address>) -> bool {
    match derived {
        Some(address) => table_address(authority@, creation_slot) == Some(address@),
        None => table_address(authority@, creation_slot) is None,
    }
}

/// The address of the lookup table that `authority` creates at
/// `creation_slot`, by the ledger's own rule. `None` only for a pair that has
/// no valid table address.
pub fn derive(authority: &Address, creation_slot: u64) -> (derived: Option<Address>)
    ensures
        derives(*authority, creation_slot, derived),
{
    find_table_address(authority, creation_slot)
}

/// Deriving is deterministic: whatever is derived twice from the same
/// authority and the same slot is the same both times.
pub proof fn derivation_is_deterministic(
    authority: Address,
    creation_slot: u64,
    first: Option<Address>,
    second: Option<Address>,
)
    requires
        derives(authority, creation_slot, first),
        derives(authority, creation_slot, second),
    ensures
        first == second,
{
    if first is Some && second is Some {
        address_determined_by_bytes(first.unwrap(), second.unwrap());
    }
}

} // verus!
