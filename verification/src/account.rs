//! Reading the account in which the ledger keeps a lookup table.

use vstd::prelude::*;
use solana_program::address_lookup_table::state::AddressLookupTable;
use crate::address::{address_bytes, Address};

verus! {

/// What the ledger holds for a lookup table: who may still append to it, and
/// its entries.
#[derive(Clone, Debug, PartialEq, Eq)]
pub struct TableAccount {
    /// The authority that may append, if any still may.
    pub authority: Option<Address>,
    /// The entries, in the order of their indices.
    pub addresses: Vec<Address>,
}

/// The bytes of an optional address.
pub open spec fn optional_bytes(address: Option<Address>) -> Option<Seq<u8>> {
    match address {
        Some(address) => Some(address@),
        None => None,
    }
}

/// The authority and the entries that the ledger's format gives for the data
/// of an account; `None` where the data is not that of a lookup table.
pub uninterp spec fn table_account(data: Seq<u8>) -> Option<(Option<Seq<u8>>, Seq<Seq<u8>>)>;

/// Calls `solana_program::address_lookup_table::state::AddressLookupTable::deserialize`.
/// Trusted: what is read depends on the data alone.
#[verifier::external_body]
fn decode_table(data: &Vec<u8>) -> (decoded: Option<TableAccount>)
    ensures
        match decoded {
            Some(account) => table_account(data@) == Some(
                (optional_bytes(account.authority), address_bytes(account.addresses@)),
            ),
            None => table_account(data@) is None,
        },
{
    AddressLookupTable::deserialize(data).ok().map(|table| TableAccount {
        authority: table.meta.authority.map(|key| Address { bytes: key.to_bytes() }),
        addresses: table.addresses.iter().map(|key| Address { bytes: key.to_bytes() }).collect(),
    })
}

/// Reads the data of the account at a table's address. `None` where the data
/// is not that of a lookup table.
pub fn read_table_account(data: &Vec<u8>) -> (account: Option<TableAccount>)
    ensures
        match account {
            Some(account) => table_account(data@) == Some(
                (optional_bytes(account.authority), address_bytes(account.addresses@)),
            ),
            None => table_account(data@) is None,
        },
{
    decode_table(data)
}

} // verus!
