use alt_lifecycle::address::Address;
use alt_lifecycle::deriver;
use solana_sdk::address_lookup_table::instruction::derive_lookup_table_address;
use solana_sdk::pubkey::Pubkey;

fn sample(seed: u8) -> Address {
    let mut bytes = [0u8; 32];
    for (i, b) in bytes.iter_mut().enumerate() {
        *b = seed.wrapping_mul(31).wrapping_add(i as u8);
    }
    Address::new(bytes)
}

#[test]
fn derive_agrees_with_the_ledger_library() {
    let authority = sample(7);
    let expected = derive_lookup_table_address(&Pubkey::from(authority.to_bytes()), 123_456).0;
    let derived = deriver::derive(&authority, 123_456).unwrap();
    assert_eq!(derived.to_bytes(), expected.to_bytes());
    assert_ne!(derived, authority);
}

#[test]
fn derive_is_repeatable() {
    let authority = sample(9);
    assert_eq!(deriver::derive(&authority, 42), deriver::derive(&authority, 42));
    assert_ne!(deriver::derive(&authority, 42), deriver::derive(&authority, 43));
    assert_ne!(deriver::derive(&authority, 42), deriver::derive(&sample(10), 42));
}
