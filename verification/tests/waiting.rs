use alt_lifecycle::account::TableAccount;
use alt_lifecycle::activation::{ActivationWait, WaitStep};
use alt_lifecycle::address::Address;
use alt_lifecycle::error::LifecycleError;
use alt_lifecycle::table::{LookupTable, TableStatus};

fn entry(seed: u8) -> Address {
    Address::new([seed; 32])
}

fn extended_table() -> LookupTable {
    LookupTable {
        address: entry(100),
        addresses: vec![entry(1), entry(2), entry(3)],
        authority: entry(90),
        update_authority: Some(entry(90)),
        creation_slot: 12,
        status: TableStatus::Extended,
    }
}

fn ledger_holds(entries: Vec<Address>) -> Option<TableAccount> {
    Some(TableAccount { authority: Some(entry(90)), addresses: entries })
}

#[test]
fn wait_that_never_sees_the_extension_times_out() {
    let table = extended_table();
    let mut wait = ActivationWait::begin(table.clone(), 300, 1_000);
    let mut elapsed = 0u64;
    let mut pauses = Vec::new();
    let failed = loop {
        match wait.decide(ledger_holds(vec![entry(1)]), elapsed) {
            WaitStep::PollAgain { wait: next, after } => {
                pauses.push(after);
                elapsed += after;
                wait = next;
            },
            other => break other,
        }
    };
    assert_eq!(pauses, vec![300, 300, 300, 100]);
    assert_eq!(elapsed, 1_000);
    assert_eq!(
        failed,
        WaitStep::Failed { error: LifecycleError::ActivationTimeout, table: table.clone() }
    );
    match failed {
        WaitStep::Failed { table: handed_back, .. } => {
            assert_eq!(handed_back.status, TableStatus::Extended);
            assert_eq!(handed_back.addresses, table.addresses);
        },
        _ => unreachable!(),
    }
}

#[test]
fn wait_past_its_timeout_fails_at_once() {
    let table = extended_table();
    let wait = ActivationWait::begin(table.clone(), 300, 1_000);
    assert_eq!(
        wait.decide(None, 1_000),
        WaitStep::Failed { error: LifecycleError::ActivationTimeout, table: table.clone() }
    );
    let wait = ActivationWait::begin(table.clone(), 300, 1_000);
    assert_eq!(
        wait.decide(ledger_holds(vec![]), u64::MAX),
        WaitStep::Failed { error: LifecycleError::ActivationTimeout, table }
    );
}

#[test]
fn wait_with_no_time_at_all_still_accepts_a_shown_table() {
    let wait = ActivationWait::begin(extended_table(), 300, 0);
    match wait.decide(ledger_holds(vec![entry(1), entry(2), entry(3)]), 5) {
        WaitStep::Active(table) => assert_eq!(table.status, TableStatus::Active),
        other => panic!("unexpected step: {:?}", other),
    }
}

#[test]
fn wait_pauses_for_the_interval_or_for_what_is_left() {
    let wait = ActivationWait::begin(extended_table(), 300, 1_000);
    let again = wait.clone();
    assert_eq!(wait.decide(None, 0), WaitStep::PollAgain { wait: again.clone(), after: 300 });
    assert_eq!(
        again.clone().decide(None, 700),
        WaitStep::PollAgain { wait: again.clone(), after: 300 }
    );
    assert_eq!(
        again.clone().decide(None, 701),
        WaitStep::PollAgain { wait: again.clone(), after: 299 }
    );
    assert_eq!(
        again.clone().decide(None, 999),
        WaitStep::PollAgain { wait: again.clone(), after: 1 }
    );
    let eager = ActivationWait::begin(extended_table(), 0, 10);
    assert_eq!(
        eager.clone().decide(None, 3),
        WaitStep::PollAgain { wait: eager, after: 0 }
    );
}

#[test]
fn wait_ends_with_the_table_that_the_ledger_holds() {
    let wait = ActivationWait::begin(extended_table(), 300, 1_000);
    let seen = TableAccount {
        authority: None,
        addresses: vec![entry(1), entry(2), entry(3), entry(4)],
    };
    let step = wait.decide(Some(seen), 10);
    assert_eq!(
        step,
        WaitStep::Active(LookupTable {
            address: entry(100),
            addresses: vec![entry(1), entry(2), entry(3), entry(4)],
            authority: entry(90),
            update_authority: None,
            creation_slot: 12,
            status: TableStatus::Active,
        })
    );
}

#[test]
fn wait_goes_on_while_entries_are_missing_or_differ() {
    let wait = ActivationWait::begin(extended_table(), 300, 1_000);
    for stale in [
        vec![],
        vec![entry(1), entry(2)],
        vec![entry(1), entry(2), entry(9)],
        vec![entry(2), entry(1), entry(3)],
        vec![entry(9), entry(1), entry(2), entry(3)],
    ] {
        match wait.clone().decide(ledger_holds(stale), 10) {
            WaitStep::PollAgain { after, .. } => assert_eq!(after, 300),
            other => panic!("unexpected step: {:?}", other),
        }
    }
}

#[test]
fn wait_for_a_table_without_entries_ends_when_the_account_is_there() {
    let mut table = extended_table();
    table.addresses = vec![];
    table.status = TableStatus::Created;
    let wait = ActivationWait::begin(table, 300, 1_000);
    match wait.clone().decide(None, 0) {
        WaitStep::PollAgain { after, .. } => assert_eq!(after, 300),
        other => panic!("unexpected step: {:?}", other),
    }
    match wait.decide(ledger_holds(vec![]), 300) {
        WaitStep::Active(table) => {
            assert_eq!(table.status, TableStatus::Active);
            assert!(table.addresses.is_empty());
        },
        other => panic!("unexpected step: {:?}", other),
    }
}
