//! Ledger addresses and the small searches over address lists that the rest
//! of the crate is built from.

use vstd::prelude::*;

verus! {

/// The identifier of an account on the ledger: 32 opaque bytes.
#[verifier::ext_equal]
#[derive(Clone, Copy, Debug, PartialEq, Eq, Hash)]
pub struct Address {
    pub bytes: [u8; 32],
}

impl View for Address {
    type V = Seq<u8>;

    open spec fn view(&self) -> Seq<u8> {
        self.bytes@
    }
}

/// The byte strings of a list of addresses, in order.
pub open spec fn address_bytes(addresses: Seq<Address>) -> Seq<Seq<u8>> {
    Seq::new(addresses.len(), |i: int| addresses[i]@)
}

/// The position of the first occurrence of `address` in `addresses`, if it
/// occurs at all.
pub open spec fn first_index(addresses: Seq<Address>, address: Address) -> Option<int>
    decreases addresses.len(),
{
    if addresses.len() == 0 {
        None
    } else if addresses[0] == address {
        Some(0)
    } else {
        match first_index(addresses.drop_first(), address) {
            Some(i) => Some(i + 1),
            None => None,
        }
    }
}

impl Address {
    /// An address from its 32 bytes.
    pub fn new(bytes: [u8; 32]) -> (address: Address)
        ensures
            address.bytes == bytes,
            address@ == bytes@,
    {
        Address { bytes }
    }

    /// The 32 bytes of the address.
    pub fn to_bytes(&self) -> (bytes: [u8; 32])
        ensures
            bytes == self.bytes,
    {
        self.bytes
    }

    /// Whether two addresses are the same 32 bytes.
    pub fn same(&self, other: &Address) -> (equal: bool)
        ensures
            equal == (*self == *other),
    {
        let mut i: usize = 0;
        while i < 32
            invariant
                i <= 32,
                forall|j: int| 0 <= j < i ==> self.bytes[j] == other.bytes[j],
            decreases 32 - i,
        {
            if self.bytes[i] != other.bytes[i] {
                return false;
            }
            i = i + 1;
        }
        assert(self.bytes =~= other.bytes);
        true
    }
}

/// Two addresses are equal exactly when their byte strings are.
pub proof fn address_determined_by_bytes(a: Address, b: Address)
    ensures
        (a@ == b@) <==> (a == b),
{
    if a@ == b@ {
        assert forall|i: int| 0 <= i < 32 implies a.bytes[i] == b.bytes[i] by {
            assert(a.bytes@[i] == b.bytes@[i]);
        }
        assert(a.bytes =~= b.bytes);
    }
}

/// What `first_index` finds: the entry at the index is the address, no
/// earlier entry is, and nothing is found only where the address is absent.
pub proof fn first_index_is_first(addresses: Seq<Address>, address: Address)
    ensures
        match first_index(addresses, address) {
            Some(i) => 0 <= i < addresses.len() && addresses[i] == address && forall|j: int|
                0 <= j < i ==> addresses[j] != address,
            None => !addresses.contains(address),
        },
    decreases addresses.len(),
{
    if addresses.len() == 0 {
    } else if addresses[0] == address {
    } else {
        let rest = addresses.drop_first();
        first_index_is_first(rest, address);
        match first_index(rest, address) {
            Some(i) => {
                assert(addresses[i + 1] == rest[i]);
                assert forall|j: int| 0 <= j < i + 1 implies addresses[j] != address by {
                    if j > 0 {
                        assert(addresses[j] == rest[j - 1]);
                    }
                }
            },
            None => {
                assert forall|j: int| 0 <= j < addresses.len() implies addresses[j]
                    != address by {
                    if j > 0 {
                        assert(addresses[j] == rest[j - 1]);
                        assert(rest.contains(rest[j - 1]));
                    }
                }
            },
        }
    }
}

/// The index of the first entry of `addresses` that is `address`.
pub fn find_address(addresses: &Vec<Address>, address: &Address) -> (found: Option<usize>)
    ensures
        match found {
            Some(i) => first_index(addresses@, *address) == Some(i as int),
            None => first_index(addresses@, *address) is None,
        },
{
    let mut i: usize = 0;
    while i < addresses.len()
        invariant
            i <= addresses.len(),
            forall|j: int| 0 <= j < i ==> addresses@[j] != *address,
        decreases addresses.len() - i,
    {
        if addresses[i].same(address) {
            proof {
                first_index_is_first(addresses@, *address);
            }
            return Some(i);
        }
        i = i + 1;
    }
    proof {
        first_index_is_first(addresses@, *address);
    }
    None
}

/// Whether `address` occurs in `addresses`.
pub fn holds_address(addresses: &Vec<Address>, address: &Address) -> (held: bool)
    ensures
        held == addresses@.contains(*address),
{
    proof {
        first_index_is_first(addresses@, *address);
    }
    find_address(addresses, address).is_some()
}

} // verus!
