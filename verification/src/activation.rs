//! Waiting until the ledger shows a table with everything that was appended
//! to it. The ledger is asked again and again; what was seen and how much
//! time has passed decide whether the wait is over, goes on, or has failed.

use vstd::prelude::*;
use crate::account::TableAccount;
use crate::address::Address;
use crate::error::LifecycleError;
use crate::table::{LookupTable, TableStatus};

verus! {

/// A wait for a table to become readable.
#[derive(Clone, Debug, PartialEq, Eq)]
pub struct ActivationWait {
    /// The table as the caller knows it.
    pub table: LookupTable,
    /// How long to pause between two looks at the ledger, in milliseconds.
    pub poll_interval: u64,
    /// How long the wait may last in all, in milliseconds.
    pub timeout: u64,
}

/// What to do after a look at the ledger.
#[derive(Clone, Debug, PartialEq, Eq)]
pub enum WaitStep {
    /// The ledger shows the table: the wait is over, and this is the table
    /// as the ledger holds it.
    Active(LookupTable),
    /// The ledger does not show it yet: pause for `after` milliseconds, look
    /// again, and go on with `wait`.
    PollAgain { wait: ActivationWait, after: u64 },
    /// The wait failed with `error`; `table` is the table as it was known
    /// before the wait.
    Failed { error: LifecycleError, table: LookupTable },
}

/// Whether what the ledger holds shows every entry of the table: the entries
/// that the caller knows come first in what the ledger holds, in the same
/// order.
pub open spec fn reflects(account: TableAccount, table: LookupTable) -> bool {
    table.addresses@.is_prefix_of(account.addresses@)
}

/// Whether a look at the ledger shows the table.
pub open spec fn shown(observed: Option<TableAccount>, table: LookupTable) -> bool {
    match observed {
        Some(account) => reflects(account, table),
        None => false,
    }
}

/// What follows from a look at the ledger `elapsed` milliseconds into the
/// wait.
pub open spec fn step_after(wait: ActivationWait, observed: Option<TableAccount>, elapsed: u64) -> WaitStep {
    if shown(observed, wait.table) {
        WaitStep::Active(
            LookupTable {
                address: wait.table.address,
                addresses: observed.unwrap().addresses,
                authority: wait.table.authority,
                update_authority: observed.unwrap().authority,
                creation_slot: wait.table.creation_slot,
                status: TableStatus::Active,
            },
        )
    } else if elapsed >= wait.timeout {
        WaitStep::Failed { error: LifecycleError::ActivationTimeout, table: wait.table }
    } else {
        WaitStep::PollAgain {
            wait,
            after: if wait.poll_interval <= wait.timeout - elapsed {
                wait.poll_interval
            } else {
                (wait.timeout - elapsed) as u64
            },
        }
    }
}

/// Whether the first entries of `observed` are those of `expected`, in the
/// same order.
fn starts_with(observed: &Vec<Address>, expected: &Vec<Address>) -> (prefixed: bool)
    ensures
        prefixed == expected@.is_prefix_of(observed@),
{
    if expected.len() > observed.len() {
        return false;
    }
    let mut i: usize = 0;
    while i < expected.len()
        invariant
            i <= expected@.len(),
            expected@.len() <= observed@.len(),
            forall|k: int| 0 <= k < i ==> expected@[k] == observed@[k],
        decreases expected@.len() - i,
    {
        if !expected[i].same(&observed[i]) {
            assert(expected@[i as int] != observed@[i as int]);
            return false;
        }
        i = i + 1;
    }
    assert(expected@ =~= observed@.subrange(0, expected@.len() as int));
    true
}

impl ActivationWait {
    /// A wait for `table` that looks at the ledger every `poll_interval`
    /// milliseconds and gives up after `timeout` milliseconds.
    pub fn begin(table: LookupTable, poll_interval: u64, timeout: u64) -> (wait: ActivationWait)
        ensures
            wait.table == table,
            wait.poll_interval == poll_interval,
            wait.timeout == timeout,
    {
        ActivationWait { table, poll_interval, timeout }
    }

    /// Decides what follows from a look at the ledger, `elapsed`
    /// milliseconds after the wait began. `observed` is what the ledger
    /// holds at the table's address, `None` where it holds no lookup table
    /// there.
    ///
    /// Where the ledger shows every entry of the table, the wait is over
    /// and the table is `Active`, with the entries and the authority that
    /// the ledger holds. Where it does not and the timeout has passed, the
    /// wait has failed with `ActivationTimeout` and the table is handed
    /// back as it was. Otherwise the caller is to look again after the
    /// polling interval, or after what is left of the timeout if that is
    /// less.
    pub fn decide(self, observed: Option<TableAccount>, elapsed: u64) -> (step: WaitStep)
        ensures
            step == step_after(self, observed, elapsed),
    {
        match observed {
            Some(account) => {
                if starts_with(&account.addresses, &self.table.addresses) {
                    return WaitStep::Active(
                        LookupTable {
                            address: self.table.address,
                            addresses: account.addresses,
                            authority: self.table.authority,
                            update_authority: account.authority,
                            creation_slot: self.table.creation_slot,
                            status: TableStatus::Active,
                        },
                    );
                }
            },
            None => {},
        }
        if elapsed >= self.timeout {
            WaitStep::Failed { error: LifecycleError::ActivationTimeout, table: self.table }
        } else {
            let left = self.timeout - elapsed;
            let after = if self.poll_interval <= left {
                self.poll_interval
            } else {
                left
            };
            WaitStep::PollAgain { wait: self, after }
        }
    }
}

/// A wait that has passed its timeout without the ledger showing the table
/// fails with `ActivationTimeout`, and the table is what it was before the
/// wait, status included.
pub proof fn unshown_table_times_out(
    wait: ActivationWait,
    observed: Option<TableAccount>,
    elapsed: u64,
)
    requires
        !shown(observed, wait.table),
        elapsed >= wait.timeout,
    ensures
        step_after(wait, observed, elapsed) == (WaitStep::Failed {
            error: LifecycleError::ActivationTimeout,
            table: wait.table,
        }),
{
}

/// A wait never asks for a pause that would end after its timeout.
pub proof fn pause_ends_within_timeout(
    wait: ActivationWait,
    observed: Option<TableAccount>,
    elapsed: u64,
)
    ensures
        match step_after(wait, observed, elapsed) {
            WaitStep::PollAgain { wait: next, after } => next == wait && after
                <= wait.poll_interval && elapsed + after <= wait.timeout,
            _ => true,
        },
{
}

/// A table that the wait hands out as `Active` holds the caller's entries at
/// their indices.
pub proof fn active_table_keeps_indices(
    wait: ActivationWait,
    observed: Option<TableAccount>,
    elapsed: u64,
    index: int,
)
    requires
        step_after(wait, observed, elapsed) is Active,
        0 <= index < wait.table.addresses@.len(),
    ensures
        step_after(wait, observed, elapsed)->Active_0.addresses@[index]
            == wait.table.addresses@[index],
        step_after(wait, observed, elapsed)->Active_0.status == TableStatus::Active,
        step_after(wait, observed, elapsed)->Active_0.address == wait.table.address,
{
}

} // verus!
