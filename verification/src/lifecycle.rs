//! Creating a table and appending to it. Each operation comes in two halves
//! around the one thing that this crate cannot do, which is to talk to the
//! ledger: a plan, which holds the message to send, and a conclusion, which
//! turns the ledger's answer into the table's next state.

use vstd::prelude::*;
use crate::address::{
    address_bytes, address_determined_by_bytes, first_index, first_index_is_first, holds_address,
    Address,
};
use crate::deriver::table_address;
use crate::error::LifecycleError;
use crate::instruction::{
    account_parts, build_creation, build_extension, creation_built, creation_instruction_parts,
    extension_instruction_parts, instruction_parts, Instruction,
};
use crate::message::{compile, CompiledMessage, Freshness};
use crate::submit::{
    conclude, required_signers, with_signers, with_signing_accounts, Outcome,
};
use crate::table::{LookupTable, TableStatus};

verus! {

/// A creation that is ready to be sent.
#[derive(Clone, Debug, PartialEq, Eq)]
pub struct CreatePlan {
    /// The table as it will be once the creation is confirmed.
    pub created: LookupTable,
    /// The message that creates it.
    pub message: CompiledMessage,
}

/// An extension that is ready to be sent.
#[derive(Clone, Debug, PartialEq, Eq)]
pub struct ExtendPlan {
    /// The table as it will be once the extension is confirmed.
    pub extended: LookupTable,
    /// The message that extends it.
    pub message: CompiledMessage,
}

/// A message that holds one instruction and uses no table.
pub open spec fn single_instruction_message(
    message: CompiledMessage,
    fee_payer: Address,
    freshness: Freshness,
    parts: (Seq<u8>, Seq<(Seq<u8>, bool, bool)>, Seq<u8>),
) -> bool {
    &&& message.fee_payer == fee_payer
    &&& message.freshness == freshness
    &&& message.tables@.len() == 0
    &&& message.instructions@.len() == 1
    &&& instruction_parts(message.instructions@[0]) == parts
    &&& message.well_formed()
}

/// The message of `fee_payer` that holds `instruction` alone.
fn message_of(fee_payer: &Address, instruction: Instruction, freshness: Freshness) -> (message:
    CompiledMessage)
    ensures
        single_instruction_message(message, *fee_payer, freshness, instruction_parts(instruction)),
{
    let mut instructions: Vec<Instruction> = Vec::new();
    instructions.push(instruction);
    let tables: Vec<LookupTable> = Vec::new();
    match compile(Some(*fee_payer), instructions, tables, freshness) {
        Ok(message) => message,
        // No table was handed in, and the fee payer was.
        Err(_) => vstd::pervasive::unreached(),
    }
}

/// The table address on which the derivation here and the ledger's library
/// agree: `derived`, where there is one and `reported` is the same address,
/// and `DerivationMismatch` otherwise.
pub fn agreed_address(derived: Option<Address>, reported: &Address) -> (agreed: Result<
    Address,
    LifecycleError,
>)
    ensures
        agreed == if derived == Some(*reported) {
            Ok::<Address, LifecycleError>(*reported)
        } else {
            Err(LifecycleError::DerivationMismatch)
        },
{
    match derived {
        Some(address) => {
            if address.same(reported) {
                Ok(address)
            } else {
                Err(LifecycleError::DerivationMismatch)
            }
        },
        None => Err(LifecycleError::DerivationMismatch),
    }
}

/// Plans the creation of the table of `authority` at `creation_slot`, paid
/// for by `fee_payer` and bound to `freshness`.
///
/// The address of the table is derived here and, independently, by the
/// ledger's library as it builds the instruction. Where the pair has no
/// table address, or the two addresses differ, nothing is planned and the
/// answer is `DerivationMismatch`.
pub fn plan_create(
    authority: &Address,
    fee_payer: &Address,
    creation_slot: u64,
    freshness: Freshness,
) -> (planned: Result<CreatePlan, LifecycleError>)
    ensures
        match planned {
            Ok(plan) => {
                &&& table_address(authority@, creation_slot) == Some(plan.created.address@)
                &&& creation_built(authority@, fee_payer@, creation_slot).1
                    == plan.created.address@
                &&& plan.created.addresses@ == Seq::<Address>::empty()
                &&& plan.created.authority == *authority
                &&& plan.created.update_authority == Some(*authority)
                &&& plan.created.creation_slot == creation_slot
                &&& plan.created.status == TableStatus::Created
                &&& plan.created.well_formed()
                &&& single_instruction_message(
                    plan.message,
                    *fee_payer,
                    freshness,
                    creation_instruction_parts(authority@, fee_payer@, creation_slot),
                )
                &&& required_signers(plan.message.fee_payer, plan.message.instructions@)
                    == seq![*fee_payer]
            },
            Err(error) => {
                &&& error == LifecycleError::DerivationMismatch
                &&& table_address(authority@, creation_slot) != Some(
                    creation_built(authority@, fee_payer@, creation_slot).1,
                )
            },
        },
{
    let derived = match crate::deriver::derive(authority, creation_slot) {
        Some(derived) => derived,
        None => {
            return Err(LifecycleError::DerivationMismatch);
        },
    };
    let (instruction, reported) = build_creation(authority, fee_payer, creation_slot);
    let address = match agreed_address(Some(derived), &reported) {
        Ok(address) => address,
        Err(error) => {
            proof {
                address_determined_by_bytes(derived, reported);
            }
            return Err(error);
        },
    };
    let message = message_of(fee_payer, instruction, freshness);
    proof {
        creation_is_signed_by_fee_payer(message, *authority, *fee_payer, creation_slot);
    }
    Ok(CreatePlan { created: LookupTable::created(address, *authority, creation_slot), message })
}

/// The table after the ledger answered the creation: the planned table where
/// the creation was confirmed, `SubmissionError` where it was rejected or
/// could not be confirmed, `StaleFreshnessToken` where the token expired
/// first.
pub fn conclude_create(plan: CreatePlan, outcome: Outcome) -> (table: Result<
    LookupTable,
    LifecycleError,
>)
    ensures
        table == match outcome {
            Outcome::Confirmed(_) => Ok::<LookupTable, LifecycleError>(plan.created),
            Outcome::Rejected => Err(LifecycleError::SubmissionError),
            Outcome::Expired => Err(LifecycleError::StaleFreshnessToken),
        },
{
    match conclude(outcome) {
        Ok(_) => Ok(plan.created),
        Err(error) => Err(error),
    }
}

/// Whether `table` already holds one of `addresses`.
pub open spec fn holds_any(table: LookupTable, addresses: Seq<Address>) -> bool {
    exists|k: int| 0 <= k < addresses.len() && table.addresses@.contains(#[trigger] addresses[k])
}

/// Whether `table` already holds one of `addresses`.
fn holds_one_of(table: &LookupTable, addresses: &Vec<Address>) -> (held: bool)
    ensures
        held == holds_any(*table, addresses@),
{
    let mut k: usize = 0;
    while k < addresses.len()
        invariant
            k <= addresses@.len(),
            forall|m: int| 0 <= m < k ==> !table.addresses@.contains(#[trigger] addresses@[m]),
        decreases addresses@.len() - k,
    {
        if holds_address(&table.addresses, &addresses[k]) {
            return true;
        }
        k = k + 1;
    }
    false
}

/// `first` followed by `second`.
fn joined(first: &Vec<Address>, second: &Vec<Address>) -> (all: Vec<Address>)
    ensures
        all@ == first@ + second@,
{
    let mut all: Vec<Address> = Vec::new();
    let mut i: usize = 0;
    while i < first.len()
        invariant
            i <= first@.len(),
            all@ == first@.take(i as int),
        decreases first@.len() - i,
    {
        all.push(first[i]);
        assert(all@ =~= first@.take(i + 1));
        i = i + 1;
    }
    assert(first@.take(first@.len() as int) =~= first@);
    let mut j: usize = 0;
    while j < second.len()
        invariant
            j <= second@.len(),
            all@ == first@ + second@.take(j as int),
        decreases second@.len() - j,
    {
        all.push(second[j]);
        assert(all@ =~= first@ + second@.take(j + 1));
        j = j + 1;
    }
    assert(second@.take(second@.len() as int) =~= second@);
    all
}

/// Plans the appending of `addresses` to `table`, signed by `authority`,
/// paid for by `fee_payer` and bound to `freshness`.
///
/// Where the table already holds one of the addresses nothing is planned,
/// so that nothing reaches the ledger, and the answer is
/// `DuplicateAddressError`. Otherwise the planned table holds the old
/// entries followed by the new ones, in the order given, and is `Extended`.
pub fn plan_extend(
    table: &LookupTable,
    authority: &Address,
    fee_payer: &Address,
    addresses: &Vec<Address>,
    freshness: Freshness,
) -> (planned: Result<ExtendPlan, LifecycleError>)
    requires
        addresses@.len() > 0,
    ensures
        match planned {
            Ok(plan) => {
                &&& !holds_any(*table, addresses@)
                &&& plan.extended.address == table.address
                &&& plan.extended.addresses@ == table.addresses@ + addresses@
                &&& plan.extended.authority == table.authority
                &&& plan.extended.update_authority == table.update_authority
                &&& plan.extended.creation_slot == table.creation_slot
                &&& plan.extended.status == TableStatus::Extended
                &&& plan.extended.well_formed()
                &&& single_instruction_message(
                    plan.message,
                    *fee_payer,
                    freshness,
                    extension_instruction_parts(
                        table.address@,
                        authority@,
                        fee_payer@,
                        address_bytes(addresses@),
                    ),
                )
                &&& required_signers(plan.message.fee_payer, plan.message.instructions@)
                    == if *authority == *fee_payer {
                    seq![*fee_payer]
                } else {
                    seq![*fee_payer, *authority]
                }
            },
            Err(error) => error == LifecycleError::DuplicateAddressError && holds_any(
                *table,
                addresses@,
            ),
        },
{
    if holds_one_of(table, addresses) {
        return Err(LifecycleError::DuplicateAddressError);
    }
    let instruction = build_extension(&table.address, authority, fee_payer, addresses);
    let message = message_of(fee_payer, instruction, freshness);
    proof {
        extension_is_signed_by_fee_payer_and_authority(
            message,
            table.address,
            *authority,
            *fee_payer,
            addresses@,
        );
    }
    let extended = LookupTable {
        address: table.address,
        addresses: joined(&table.addresses, addresses),
        authority: table.authority,
        update_authority: table.update_authority,
        creation_slot: table.creation_slot,
        status: TableStatus::Extended,
    };
    Ok(ExtendPlan { extended, message })
}

/// The table after the ledger answered the extension: the planned table
/// where the extension was confirmed, `SubmissionError` where it was
/// rejected or could not be confirmed, `StaleFreshnessToken` where the token
/// expired first.
pub fn conclude_extend(plan: ExtendPlan, outcome: Outcome) -> (table: Result<
    LookupTable,
    LifecycleError,
>)
    ensures
        table == match outcome {
            Outcome::Confirmed(_) => Ok::<LookupTable, LifecycleError>(plan.extended),
            Outcome::Rejected => Err(LifecycleError::SubmissionError),
            Outcome::Expired => Err(LifecycleError::StaleFreshnessToken),
        },
{
    match conclude(outcome) {
        Ok(_) => Ok(plan.extended),
        Err(error) => Err(error),
    }
}

/// A creation is signed by the fee payer alone.
pub proof fn creation_is_signed_by_fee_payer(
    message: CompiledMessage,
    authority: Address,
    fee_payer: Address,
    creation_slot: u64,
)
    requires
        message.fee_payer == fee_payer,
        message.instructions@.len() == 1,
        instruction_parts(message.instructions@[0]) == creation_instruction_parts(
            authority@,
            fee_payer@,
            creation_slot,
        ),
    ensures
        required_signers(message.fee_payer, message.instructions@) == seq![fee_payer],
{
    let accounts = message.instructions@[0].accounts@;
    let parts = account_parts(accounts);
    assert(parts.len() == 4);
    assert(parts[0].1 == false && parts[1].1 == false && parts[2].1 == true && parts[3].1
        == false);
    assert(parts[2].0 == fee_payer@);
    address_determined_by_bytes(accounts[2].address, fee_payer);
    let listed = seq![fee_payer];
    assert(listed[0] == fee_payer);
    let a1 = accounts.drop_first();
    let a2 = a1.drop_first();
    let a3 = a2.drop_first();
    assert(a1[0] == accounts[1] && a2[0] == accounts[2] && a3[0] == accounts[3]);
    assert(a3.drop_first().len() == 0);
    reveal_with_fuel(with_signing_accounts, 5);
    assert(with_signing_accounts(listed, accounts) == listed);
    reveal_with_fuel(with_signers, 2);
    assert(message.instructions@.drop_first().len() == 0);
}

/// An extension is signed by the fee payer and by the authority, the fee
/// payer first; by one signer where the two are the same.
pub proof fn extension_is_signed_by_fee_payer_and_authority(
    message: CompiledMessage,
    table: Address,
    authority: Address,
    fee_payer: Address,
    addresses: Seq<Address>,
)
    requires
        message.fee_payer == fee_payer,
        message.instructions@.len() == 1,
        instruction_parts(message.instructions@[0]) == extension_instruction_parts(
            table@,
            authority@,
            fee_payer@,
            address_bytes(addresses),
        ),
    ensures
        required_signers(message.fee_payer, message.instructions@) == if authority
            == fee_payer {
            seq![fee_payer]
        } else {
            seq![fee_payer, authority]
        },
{
    let accounts = message.instructions@[0].accounts@;
    let parts = account_parts(accounts);
    assert(parts.len() == 4);
    assert(parts[0].1 == false && parts[1].1 == true && parts[2].1 == true && parts[3].1
        == false);
    assert(parts[1].0 == authority@ && parts[2].0 == fee_payer@);
    address_determined_by_bytes(accounts[1].address, authority);
    address_determined_by_bytes(accounts[2].address, fee_payer);
    let listed = seq![fee_payer];
    assert(listed[0] == fee_payer);
    let a1 = accounts.drop_first();
    let a2 = a1.drop_first();
    let a3 = a2.drop_first();
    assert(a1[0] == accounts[1] && a2[0] == accounts[2] && a3[0] == accounts[3]);
    assert(a3.drop_first().len() == 0);
    reveal_with_fuel(with_signing_accounts, 5);
    if authority == fee_payer {
        assert(with_signing_accounts(listed, accounts) == listed);
    } else {
        let both = listed.push(authority);
        assert(both[0] == fee_payer);
        assert(both.contains(fee_payer));
        assert(!listed.contains(authority)) by {
            if listed.contains(authority) {
                let k = choose|k: int| 0 <= k < listed.len() && listed[k] == authority;
            }
        }
        assert(with_signing_accounts(listed, accounts) == both);
        assert(both =~= seq![fee_payer, authority]);
    }
    reveal_with_fuel(with_signers, 2);
    assert(message.instructions@.drop_first().len() == 0);
}

/// After an extension every new address stands at its position in the old
/// entries followed by the new ones, counted from 0.
pub proof fn appended_stand_in_order(held: Seq<Address>, appended: Seq<Address>, k: int)
    requires
        0 <= k < appended.len(),
    ensures
        (held + appended)[held.len() + k] == appended[k],
        forall|i: int| 0 <= i < held.len() ==> (held + appended)[i] == held[i],
{
}

/// After an extension a new address is looked up under its position in the
/// old entries followed by the new ones, provided that the table did not
/// hold it and that it does not occur earlier among the new ones.
pub proof fn appended_is_indexed_by_position(
    held: Seq<Address>,
    appended: Seq<Address>,
    k: int,
)
    requires
        0 <= k < appended.len(),
        !held.contains(appended[k]),
        forall|m: int| 0 <= m < k ==> appended[m] != appended[k],
    ensures
        first_index(held + appended, appended[k]) == Some(held.len() + k),
{
    let all = held + appended;
    first_index_is_first(all, appended[k]);
    assert(all[held.len() + k] == appended[k]);
    assert(all.contains(appended[k]));
    let found = first_index(all, appended[k]).unwrap();
    if found < held.len() {
        assert(held[found] == all[found]);
        assert(held.contains(held[found]));
    } else if found < held.len() + k {
        assert(all[found] == appended[found - held.len()]);
    }
}

/// An entry that the table held before an extension keeps its index.
pub proof fn held_keeps_index(held: Seq<Address>, appended: Seq<Address>, address: Address)
    requires
        held.contains(address),
    ensures
        first_index(held + appended, address) == first_index(held, address),
{
    let all = held + appended;
    first_index_is_first(all, address);
    first_index_is_first(held, address);
    let before = first_index(held, address).unwrap();
    assert(all[before] == held[before]);
    assert(all.contains(address));
    let after = first_index(all, address).unwrap();
    if after < before {
        assert(all[after] == held[after]);
    }
}

} // verus!
