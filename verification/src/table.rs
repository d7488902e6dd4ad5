//! The lookup table as this crate holds it in memory, and where it stands in
//! its lifecycle.

use vstd::prelude::*;
use crate::address::Address;

verus! {

/// How far a table has come. A table that was never created has no value of
/// `LookupTable` at all; from there the order is `Created`, `Extended`,
/// `Active`.
#[derive(Clone, Copy, Debug, PartialEq, Eq, Structural)]
pub enum TableStatus {
    /// The creation was confirmed; the table holds no address yet.
    Created,
    /// Addresses were appended, and the ledger may not show them yet.
    Extended,
    /// The ledger was seen to hold the table with every appended address.
    Active,
}

/// An address lookup table: an ordered list of addresses, each named by its
/// index in the list.
#[derive(Clone, Debug, PartialEq, Eq)]
pub struct LookupTable {
    /// Where the table lives on the ledger.
    pub address: Address,
    /// The entries; the position of an entry is its index.
    pub addresses: Vec<Address>,
    /// The authority that created the table.
    pub authority: Address,
    /// The authority that may append to it, if any still may.
    pub update_authority: Option<Address>,
    /// The ledger slot the address was derived from.
    pub creation_slot: u64,
    /// Where the table stands in its lifecycle.
    pub status: TableStatus,
}

impl TableStatus {
    /// Whether a message may look addresses up in a table of this status.
    pub fn readable(&self) -> (readable: bool)
        ensures
            readable == (*self == TableStatus::Active),
    {
        match self {
            TableStatus::Active => true,
            _ => false,
        }
    }
}

impl LookupTable {
    /// A table in `Created` holds no address, and one in `Extended` holds at
    /// least one.
    pub open spec fn well_formed(&self) -> bool {
        &&& self.status == TableStatus::Created ==> self.addresses@.len() == 0
        &&& self.status == TableStatus::Extended ==> self.addresses@.len() > 0
    }

    /// The table as it is right after its creation was confirmed.
    pub fn created(address: Address, authority: Address, creation_slot: u64) -> (table:
        LookupTable)
        ensures
            table.address == address,
            table.addresses@ == Seq::<Address>::empty(),
            table.authority == authority,
            table.update_authority == Some(authority),
            table.creation_slot == creation_slot,
            table.status == TableStatus::Created,
            table.well_formed(),
    {
        LookupTable {
            address,
            addresses: Vec::new(),
            authority,
            update_authority: Some(authority),
            creation_slot,
            status: TableStatus::Created,
        }
    }

    /// The number of entries.
    pub fn len(&self) -> (n: usize)
        ensures
            n == self.addresses@.len(),
    {
        self.addresses.len()
    }

    /// The index under which `address` can be looked up: that of its first
    /// occurrence.
    pub fn index_of(&self, address: &Address) -> (index: Option<usize>)
        ensures
            match index {
                Some(i) => crate::address::first_index(self.addresses@, *address) == Some(
                    i as int,
                ),
                None => crate::address::first_index(self.addresses@, *address) is None,
            },
    {
        crate::address::find_address(&self.addresses, address)
    }
}

} // verus!
