use alt_lifecycle::account::{read_table_account, TableAccount};
use alt_lifecycle::address::{find_address, holds_address, Address};
use alt_lifecycle::config::{configure, Commitment, GatewayConfig};
use alt_lifecycle::error::LifecycleError;
use alt_lifecycle::message::CompileError;
use alt_lifecycle::table::TableStatus;
use solana_sdk::address_lookup_table::state::{AddressLookupTable, LookupTableMeta};
use solana_sdk::pubkey::Pubkey;
use std::borrow::Cow;

fn spot(seed: u8) -> Address {
    let mut bytes = [seed; 32];
    bytes[7] = 200;
    Address::new(bytes)
}

fn account_data(authority: Option<Address>, entries: &[Address]) -> Vec<u8> {
    let meta = LookupTableMeta {
        authority: authority.map(|a| Pubkey::from(a.to_bytes())),
        ..LookupTableMeta::default()
    };
    let table = AddressLookupTable {
        meta,
        addresses: Cow::Owned(entries.iter().map(|a| Pubkey::from(a.to_bytes())).collect()),
    };
    table.serialize_for_tests().unwrap()
}

#[test]
fn table_account_is_read_with_its_entries_in_order() {
    let data = account_data(Some(spot(1)), &[spot(10), spot(11), spot(12)]);
    assert_eq!(data.len(), 56 + 3 * 32);
    assert_eq!(
        read_table_account(&data),
        Some(TableAccount {
            authority: Some(spot(1)),
            addresses: vec![spot(10), spot(11), spot(12)],
        })
    );
}

#[test]
fn table_account_without_authority_or_entries_is_read() {
    let data = account_data(None, &[]);
    assert_eq!(read_table_account(&data), Some(TableAccount { authority: None, addresses: vec![] }));
}

#[test]
fn data_that_is_no_table_is_not_read() {
    assert_eq!(read_table_account(&vec![]), None);
    assert_eq!(read_table_account(&vec![0u8; 56]), None);
    assert_eq!(read_table_account(&vec![255u8; 120]), None);
    let mut ragged = account_data(Some(spot(1)), &[spot(10)]);
    ragged.push(0);
    assert_eq!(read_table_account(&ragged), None);
    let cut = account_data(Some(spot(1)), &[])[..20].to_vec();
    assert_eq!(read_table_account(&cut), None);
}

#[test]
fn address_is_found_at_its_first_place() {
    let list = vec![spot(1), spot(2), spot(1), spot(3)];
    assert_eq!(find_address(&list, &spot(1)), Some(0));
    assert_eq!(find_address(&list, &spot(3)), Some(3));
    assert_eq!(find_address(&list, &spot(4)), None);
    assert_eq!(find_address(&vec![], &spot(1)), None);
    assert!(holds_address(&list, &spot(2)));
    assert!(!holds_address(&list, &spot(9)));
}

#[test]
fn addresses_differ_in_any_byte() {
    let base = Address::new([4u8; 32]);
    assert!(base.same(&Address::new([4u8; 32])));
    for place in [0usize, 15, 31] {
        let mut bytes = [4u8; 32];
        bytes[place] = 5;
        assert!(!base.same(&Address::new(bytes)));
        assert_eq!(Address::new(bytes).to_bytes(), bytes);
    }
}

#[test]
fn configuration_needs_an_endpoint_and_a_key() {
    assert_eq!(configure("", "key", None), Err(LifecycleError::ConfigurationError));
    assert_eq!(configure("http://localhost:8899", "", None), Err(LifecycleError::ConfigurationError));
    assert_eq!(configure("", "", Some(Commitment::Finalized)), Err(LifecycleError::ConfigurationError));
    assert_eq!(
        configure("http://localhost:8899", "key", None),
        Ok(GatewayConfig {
            endpoint: "http://localhost:8899".to_string(),
            commitment: Commitment::Processed,
        })
    );
    assert_eq!(
        configure("http://localhost:8899", "key", Some(Commitment::Finalized)).unwrap().commitment,
        Commitment::Finalized
    );
}

#[test]
fn commitment_levels_are_ordered_by_durability() {
    let levels = [Commitment::Processed, Commitment::Confirmed, Commitment::Finalized];
    for (i, higher) in levels.iter().enumerate() {
        for (j, lower) in levels.iter().enumerate() {
            assert_eq!(higher.at_least(lower), i >= j);
        }
    }
    assert_eq!(Commitment::default(), Commitment::Processed);
}

#[test]
fn only_transient_failures_are_worth_a_retry() {
    assert!(LifecycleError::SubmissionError.retryable());
    assert!(LifecycleError::StaleFreshnessToken.retryable());
    assert!(LifecycleError::ActivationTimeout.retryable());
    for fatal in [
        LifecycleError::ConfigurationError,
        LifecycleError::DerivationMismatch,
        LifecycleError::DuplicateAddressError,
        LifecycleError::NoSignerSpecified,
        LifecycleError::TableNotReadable,
        LifecycleError::MissingSignature,
    ] {
        assert!(!fatal.retryable());
    }
    assert_eq!(
        LifecycleError::of_compile(CompileError::NoSignerSpecified),
        LifecycleError::NoSignerSpecified
    );
    assert_eq!(
        LifecycleError::of_compile(CompileError::TableNotReadable),
        LifecycleError::TableNotReadable
    );
    assert!(TableStatus::Active.readable());
    assert!(!TableStatus::Extended.readable());
    assert!(!TableStatus::Created.readable());
}
