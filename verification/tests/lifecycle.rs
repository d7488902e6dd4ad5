use alt_lifecycle::account::TableAccount;
use alt_lifecycle::activation::{ActivationWait, WaitStep};
use alt_lifecycle::address::Address;
use alt_lifecycle::deriver;
use alt_lifecycle::error::LifecycleError;
use alt_lifecycle::instruction::transfer;
use alt_lifecycle::lifecycle::{
    agreed_address, conclude_create, conclude_extend, plan_create, plan_extend,
};
use alt_lifecycle::message::{compile, Freshness, Reference};
use alt_lifecycle::submit::{Confirmation, Outcome, Signature};
use alt_lifecycle::table::{LookupTable, TableStatus};

fn party(seed: u8) -> Address {
    let mut bytes = [seed; 32];
    bytes[0] = seed.wrapping_add(100);
    bytes[31] = 1;
    Address::new(bytes)
}

fn fresh(seed: u8) -> Freshness {
    Freshness { bytes: [seed; 32] }
}

fn confirmed() -> Outcome {
    Outcome::Confirmed(Confirmation { signature: Signature { bytes: [7u8; 64] } })
}

fn created_table(authority: Address, payer: Address, slot: u64) -> LookupTable {
    let plan = plan_create(&authority, &payer, slot, fresh(1)).unwrap();
    conclude_create(plan, confirmed()).unwrap()
}

#[test]
fn lifecycle_from_creation_to_compiled_transfer() {
    let authority = party(1);
    let payer = party(2);
    let slot = 4_242;
    let (x, y, z) = (party(10), party(11), party(12));

    let plan = plan_create(&authority, &payer, slot, fresh(1)).unwrap();
    assert_eq!(plan.message.fee_payer, payer);
    assert_eq!(plan.message.freshness, fresh(1));
    let table = conclude_create(plan, confirmed()).unwrap();
    assert!(table.addresses.is_empty());
    assert_eq!(table.status, TableStatus::Created);
    assert_eq!(Some(table.address), deriver::derive(&authority, slot));
    assert_eq!(table.authority, authority);
    assert_eq!(table.update_authority, Some(authority));
    assert_eq!(table.creation_slot, slot);

    let plan = plan_extend(&table, &authority, &payer, &vec![x, y, z], fresh(2)).unwrap();
    let table = conclude_extend(plan, confirmed()).unwrap();
    assert_eq!(table.status, TableStatus::Extended);
    assert_eq!(table.addresses, vec![x, y, z]);
    assert_eq!(table.index_of(&x), Some(0));
    assert_eq!(table.index_of(&y), Some(1));
    assert_eq!(table.index_of(&z), Some(2));

    let wait = ActivationWait::begin(table.clone(), 400, 30_000);
    let wait = match wait.decide(None, 0) {
        WaitStep::PollAgain { wait, after } => {
            assert_eq!(after, 400);
            wait
        },
        other => panic!("the first look should ask for another: {:?}", other),
    };
    let seen = TableAccount { authority: Some(authority), addresses: vec![x, y, z] };
    let table = match wait.decide(Some(seen), 400) {
        WaitStep::Active(table) => table,
        other => panic!("the second look should end the wait: {:?}", other),
    };
    assert_eq!(table.status, TableStatus::Active);
    assert_eq!(table.addresses, vec![x, y, z]);

    let table_address = table.address;
    let message =
        compile(Some(payer), vec![transfer(&payer, &y, 10_000)], vec![table], fresh(3)).unwrap();
    assert_eq!(
        message.encoding_of(&y),
        Some(Reference::Indexed { table: table_address, index: 1 })
    );
    assert_eq!(
        message.references,
        vec![vec![Reference::Static(payer), Reference::Indexed { table: table_address, index: 1 }]]
    );
}

#[test]
fn extension_appends_in_the_given_order() {
    let table = created_table(party(1), party(2), 9);
    let first = vec![party(10), party(11)];
    let plan = plan_extend(&table, &party(1), &party(2), &first, fresh(2)).unwrap();
    let table = conclude_extend(plan, confirmed()).unwrap();
    let second = vec![party(20), party(21), party(22)];
    let plan = plan_extend(&table, &party(1), &party(2), &second, fresh(3)).unwrap();
    let table = conclude_extend(plan, confirmed()).unwrap();
    assert_eq!(table.addresses, vec![party(10), party(11), party(20), party(21), party(22)]);
    assert_eq!(table.len(), 5);
    assert_eq!(table.status, TableStatus::Extended);
    for (position, address) in table.addresses.iter().enumerate() {
        assert_eq!(table.index_of(address), Some(position));
    }
    assert_eq!(table.index_of(&party(30)), None);
}

#[test]
fn extension_with_a_held_address_is_a_duplicate() {
    let table = created_table(party(1), party(2), 9);
    let plan = plan_extend(&table, &party(1), &party(2), &vec![party(10)], fresh(2)).unwrap();
    let table = conclude_extend(plan, confirmed()).unwrap();
    let again = plan_extend(&table, &party(1), &party(2), &vec![party(11), party(10)], fresh(3));
    assert_eq!(again, Err(LifecycleError::DuplicateAddressError));
    assert_eq!(table.addresses, vec![party(10)]);
    assert_eq!(table.status, TableStatus::Extended);
}

#[test]
fn extension_that_repeats_a_new_address_indexes_its_first_place() {
    let table = created_table(party(1), party(2), 9);
    let repeated = vec![party(10), party(10)];
    let plan = plan_extend(&table, &party(1), &party(2), &repeated, fresh(2)).unwrap();
    let table = conclude_extend(plan, confirmed()).unwrap();
    assert_eq!(table.addresses, repeated);
    assert_eq!(table.index_of(&party(10)), Some(0));
}

#[test]
fn extension_of_an_active_table_makes_it_extended_again() {
    let mut table = created_table(party(1), party(2), 9);
    table.addresses = vec![party(10)];
    table.status = TableStatus::Active;
    let plan = plan_extend(&table, &party(1), &party(2), &vec![party(11)], fresh(2)).unwrap();
    let table = conclude_extend(plan, confirmed()).unwrap();
    assert_eq!(table.status, TableStatus::Extended);
    assert_eq!(table.addresses, vec![party(10), party(11)]);
}

#[test]
fn rejected_creation_is_a_submission_error() {
    let plan = plan_create(&party(1), &party(2), 9, fresh(1)).unwrap();
    assert_eq!(conclude_create(plan, Outcome::Rejected), Err(LifecycleError::SubmissionError));
}

#[test]
fn expired_creation_is_a_stale_token() {
    let plan = plan_create(&party(1), &party(2), 9, fresh(1)).unwrap();
    assert_eq!(conclude_create(plan, Outcome::Expired), Err(LifecycleError::StaleFreshnessToken));
}

#[test]
fn rejected_extension_is_a_submission_error() {
    let table = created_table(party(1), party(2), 9);
    let plan = plan_extend(&table, &party(1), &party(2), &vec![party(10)], fresh(2)).unwrap();
    assert_eq!(conclude_extend(plan, Outcome::Rejected), Err(LifecycleError::SubmissionError));
    assert_eq!(table.status, TableStatus::Created);
    assert!(table.addresses.is_empty());
}

#[test]
fn expired_extension_is_a_stale_token() {
    let table = created_table(party(1), party(2), 9);
    let plan = plan_extend(&table, &party(1), &party(2), &vec![party(10)], fresh(2)).unwrap();
    assert_eq!(conclude_extend(plan, Outcome::Expired), Err(LifecycleError::StaleFreshnessToken));
}

#[test]
fn creation_plans_differ_with_the_slot() {
    let one = plan_create(&party(1), &party(2), 9, fresh(1)).unwrap();
    let other = plan_create(&party(1), &party(2), 10, fresh(1)).unwrap();
    assert_ne!(one.created.address, other.created.address);
    assert_ne!(one.message.instructions, other.message.instructions);
    assert_eq!(one, plan_create(&party(1), &party(2), 9, fresh(1)).unwrap());
}

#[test]
fn disagreeing_derivations_are_a_mismatch() {
    assert_eq!(agreed_address(Some(party(1)), &party(1)), Ok(party(1)));
    assert_eq!(agreed_address(Some(party(1)), &party(2)), Err(LifecycleError::DerivationMismatch));
    assert_eq!(agreed_address(None, &party(1)), Err(LifecycleError::DerivationMismatch));
}
