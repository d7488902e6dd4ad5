//! Getting a compiled message signed and sent: who has to sign it, what they
//! sign, and what the ledger's answer means.

use vstd::prelude::*;
use crate::address::{holds_address, Address};
use crate::error::LifecycleError;
use crate::instruction::{AccountMeta, Instruction};
use crate::message::CompiledMessage;
use crate::wire::{encode, wire_bytes};

verus! {

/// The signature of a transaction, by which the ledger names it.
#[verifier::ext_equal]
#[derive(Clone, Copy, Debug, PartialEq, Eq)]
pub struct Signature {
    pub bytes: [u8; 64],
}

/// The ledger's word that a transaction was confirmed.
#[derive(Clone, Copy, Debug, PartialEq, Eq)]
pub struct Confirmation {
    /// The signature of the confirmed transaction.
    pub signature: Signature,
}

/// What the ledger answered to a transaction that was sent to it.
#[derive(Clone, Copy, Debug, PartialEq, Eq)]
pub enum Outcome {
    /// The transaction was confirmed.
    Confirmed(Confirmation),
    /// The ledger rejected the transaction, or could not confirm it.
    Rejected,
    /// The freshness token expired before the transaction was confirmed.
    Expired,
}

/// What has to be signed and by whom, for a message to be sent.
#[derive(Clone, Debug, PartialEq, Eq)]
pub struct Submission {
    /// The bytes that every signer signs.
    pub bytes: Vec<u8>,
    /// The signers, the fee payer first.
    pub signers: Vec<Address>,
}

/// `listed`, followed by the signing accounts of `accounts` that are not
/// listed yet, each once, in the order in which they first occur.
pub open spec fn with_signing_accounts(listed: Seq<Address>, accounts: Seq<AccountMeta>) -> Seq<
    Address,
>
    decreases accounts.len(),
{
    if accounts.len() == 0 {
        listed
    } else {
        let first = accounts[0];
        let next = if first.signer && !listed.contains(first.address) {
            listed.push(first.address)
        } else {
            listed
        };
        with_signing_accounts(next, accounts.drop_first())
    }
}

/// `listed`, followed by the signing accounts of `instructions` that are not
/// listed yet, each once, in the order in which they first occur.
pub open spec fn with_signers(listed: Seq<Address>, instructions: Seq<Instruction>) -> Seq<
    Address,
>
    decreases instructions.len(),
{
    if instructions.len() == 0 {
        listed
    } else {
        with_signers(
            with_signing_accounts(listed, instructions[0].accounts@),
            instructions.drop_first(),
        )
    }
}

/// The signers that a message requires: the fee payer, then every account
/// that an instruction marks as signing, each once, in the order in which
/// they first occur.
pub open spec fn required_signers(fee_payer: Address, instructions: Seq<Instruction>) -> Seq<
    Address,
> {
    with_signers(seq![fee_payer], instructions)
}

/// Whether some instruction marks `address` as signing.
pub open spec fn signs(instructions: Seq<Instruction>, address: Address) -> bool {
    exists|i: int, j: int|
        0 <= i < instructions.len() && 0 <= j < instructions[i].accounts@.len() && (
        #[trigger] instructions[i].accounts@[j]).signer && instructions[i].accounts@[j].address
            == address
}

/// Whether a message of `fee_payer` with `instructions` requires `address`
/// to sign.
pub open spec fn must_sign(fee_payer: Address, instructions: Seq<Instruction>, address: Address) -> bool {
    address == fee_payer || signs(instructions, address)
}

/// Whether no address occurs twice.
pub open spec fn distinct(addresses: Seq<Address>) -> bool {
    forall|a: int, b: int| 0 <= a < b < addresses.len() ==> addresses[a] != addresses[b]
}

/// Whether `accounts` marks `address` as signing.
pub open spec fn signs_among(accounts: Seq<AccountMeta>, address: Address) -> bool {
    exists|j: int|
        0 <= j < accounts.len() && (#[trigger] accounts[j]).signer && accounts[j].address
            == address
}

/// An account signs among a list where it is the first entry and signs, or
/// signs among the rest.
proof fn signs_among_unfolds(accounts: Seq<AccountMeta>, address: Address)
    requires
        accounts.len() > 0,
    ensures
        signs_among(accounts, address) <==> ((accounts[0].signer && accounts[0].address
            == address) || signs_among(accounts.drop_first(), address)),
{
    let rest = accounts.drop_first();
    if signs_among(accounts, address) {
        let j = choose|j: int|
            0 <= j < accounts.len() && (#[trigger] accounts[j]).signer && accounts[j].address
                == address;
        if j > 0 {
            assert(rest[j - 1] == accounts[j]);
            assert(rest[j - 1].signer && rest[j - 1].address == address);
        }
    }
    if signs_among(rest, address) {
        let j = choose|j: int|
            0 <= j < rest.len() && (#[trigger] rest[j]).signer && rest[j].address == address;
        assert(accounts[j + 1] == rest[j]);
        assert(accounts[j + 1].signer && accounts[j + 1].address == address);
    }
    if accounts[0].signer && accounts[0].address == address {
        assert(signs_among(accounts, address));
    }
}

/// An address signs in a list of instructions where it signs among the
/// accounts of the first, or signs in the rest.
proof fn signs_unfolds(instructions: Seq<Instruction>, address: Address)
    requires
        instructions.len() > 0,
    ensures
        signs(instructions, address) <==> (signs_among(instructions[0].accounts@, address)
            || signs(instructions.drop_first(), address)),
{
    let rest = instructions.drop_first();
    let first = instructions[0].accounts@;
    if signs(instructions, address) {
        let (i, j) = choose|i: int, j: int|
            0 <= i < instructions.len() && 0 <= j < instructions[i].accounts@.len() && (
            #[trigger] instructions[i].accounts@[j]).signer
                && instructions[i].accounts@[j].address == address;
        if i == 0 {
            assert(first[j].signer && first[j].address == address);
        } else {
            assert(rest[i - 1] == instructions[i]);
            assert(rest[i - 1].accounts@[j].signer && rest[i - 1].accounts@[j].address
                == address);
        }
    }
    if signs(rest, address) {
        let (i, j) = choose|i: int, j: int|
            0 <= i < rest.len() && 0 <= j < rest[i].accounts@.len() && (
            #[trigger] rest[i].accounts@[j]).signer && rest[i].accounts@[j].address == address;
        assert(instructions[i + 1] == rest[i]);
        assert(instructions[i + 1].accounts@[j].signer && instructions[i + 1].accounts@[j].address
            == address);
    }
    if signs_among(first, address) {
        let j = choose|j: int|
            0 <= j < first.len() && (#[trigger] first[j]).signer && first[j].address == address;
        assert(instructions[0].accounts@[j].signer && instructions[0].accounts@[j].address
            == address);
    }
}

/// What a list holds once an address was pushed.
proof fn pushed_holds(listed: Seq<Address>, pushed: Address, address: Address)
    ensures
        listed.push(pushed).contains(address) <==> (listed.contains(address) || pushed
            == address),
{
    let next = listed.push(pushed);
    if next.contains(address) {
        let k = choose|k: int| 0 <= k < next.len() && next[k] == address;
        if k < listed.len() {
            assert(listed[k] == address);
        }
    }
    if listed.contains(address) {
        let k = choose|k: int| 0 <= k < listed.len() && listed[k] == address;
        assert(next[k] == address);
    }
    if pushed == address {
        assert(next[listed.len() as int] == address);
    }
}

/// What `with_signing_accounts` lists: what was listed, and the signing
/// accounts; nothing twice, if nothing was listed twice.
proof fn signing_accounts_listed(listed: Seq<Address>, accounts: Seq<AccountMeta>)
    ensures
        forall|address: Address|
            #[trigger] with_signing_accounts(listed, accounts).contains(address) <==> (
            listed.contains(address) || signs_among(accounts, address)),
        distinct(listed) ==> distinct(with_signing_accounts(listed, accounts)),
        listed.is_prefix_of(with_signing_accounts(listed, accounts)),
    decreases accounts.len(),
{
    if accounts.len() == 0 {
    } else {
        let first = accounts[0];
        let rest = accounts.drop_first();
        let next = if first.signer && !listed.contains(first.address) {
            listed.push(first.address)
        } else {
            listed
        };
        signing_accounts_listed(next, rest);
        let all = with_signing_accounts(listed, accounts);
        assert(all == with_signing_accounts(next, rest));
        assert forall|address: Address| #[trigger]
            all.contains(address) <==> (listed.contains(address) || signs_among(
                accounts,
                address,
            )) by {
            signs_among_unfolds(accounts, address);
            pushed_holds(listed, first.address, address);
            assert(with_signing_accounts(next, rest).contains(address) <==> (next.contains(
                address,
            ) || signs_among(rest, address)));
        }
        if distinct(listed) {
            assert forall|a: int, b: int| 0 <= a < b < next.len() implies next[a] != next[b] by {
                if b == listed.len() {
                    assert(listed.contains(listed[a]));
                }
            }
        }
        assert(listed.is_prefix_of(next));
    }
}

/// What `with_signers` lists: what was listed, and the accounts that an
/// instruction marks as signing; nothing twice, if nothing was listed twice.
proof fn signers_listed(listed: Seq<Address>, instructions: Seq<Instruction>)
    ensures
        forall|address: Address|
            #[trigger] with_signers(listed, instructions).contains(address) <==> (listed.contains(
                address,
            ) || signs(instructions, address)),
        distinct(listed) ==> distinct(with_signers(listed, instructions)),
        listed.is_prefix_of(with_signers(listed, instructions)),
    decreases instructions.len(),
{
    if instructions.len() == 0 {
    } else {
        let first = instructions[0].accounts@;
        let rest = instructions.drop_first();
        let next = with_signing_accounts(listed, first);
        signing_accounts_listed(listed, first);
        signers_listed(next, rest);
        let all = with_signers(listed, instructions);
        assert(all == with_signers(next, rest));
        assert forall|address: Address| #[trigger]
            all.contains(address) <==> (listed.contains(address) || signs(
                instructions,
                address,
            )) by {
            signs_unfolds(instructions, address);
            assert(with_signers(next, rest).contains(address) <==> (next.contains(address)
                || signs(rest, address)));
            assert(with_signing_accounts(listed, first).contains(address) <==> (
            listed.contains(address) || signs_among(first, address)));
        }
    }
}

/// The required signers are the fee payer, who comes first, and the accounts
/// that an instruction marks as signing; none is listed twice.
pub proof fn required_signers_are_those_who_must_sign(
    fee_payer: Address,
    instructions: Seq<Instruction>,
)
    ensures
        forall|address: Address|
            required_signers(fee_payer, instructions).contains(address) <==> must_sign(
                fee_payer,
                instructions,
                address,
            ),
        distinct(required_signers(fee_payer, instructions)),
        required_signers(fee_payer, instructions).len() > 0,
        required_signers(fee_payer, instructions)[0] == fee_payer,
{
    let listed = seq![fee_payer];
    let all = required_signers(fee_payer, instructions);
    signers_listed(listed, instructions);
    assert(listed[0] == fee_payer);
    assert(all[0] == listed[0]);
    assert forall|address: Address| all.contains(address) <==> must_sign(
        fee_payer,
        instructions,
        address,
    ) by {
        assert(with_signers(listed, instructions).contains(address) <==> (listed.contains(address)
            || signs(instructions, address)));
        if address == fee_payer {
            assert(listed[0] == address);
        }
    }
}

/// `listed`, followed by the signing accounts of `accounts` that it does not
/// hold yet.
fn list_signing_accounts(listed: Vec<Address>, accounts: &Vec<AccountMeta>) -> (all: Vec<Address>)
    ensures
        all@ == with_signing_accounts(listed@, accounts@),
{
    let mut all = listed;
    let mut j: usize = 0;
    assert(accounts@.skip(0) =~= accounts@);
    while j < accounts.len()
        invariant
            j <= accounts@.len(),
            with_signing_accounts(listed@, accounts@) == with_signing_accounts(
                all@,
                accounts@.skip(j as int),
            ),
        decreases accounts@.len() - j,
    {
        proof {
            let rest = accounts@.skip(j as int);
            assert(rest[0] == accounts@[j as int]);
            assert(rest.drop_first() =~= accounts@.skip(j + 1));
        }
        let account = &accounts[j];
        if account.signer && !holds_address(&all, &account.address) {
            all.push(account.address);
        }
        j = j + 1;
    }
    all
}

/// The signers that `message` requires: the fee payer, then every account
/// that an instruction marks as signing, each once, in the order in which
/// they first occur.
pub fn signers_of(message: &CompiledMessage) -> (signers: Vec<Address>)
    ensures
        signers@ == required_signers(message.fee_payer, message.instructions@),
{
    let mut signers: Vec<Address> = Vec::new();
    signers.push(message.fee_payer);
    assert(signers@ =~= seq![message.fee_payer]);
    assert(message.instructions@.skip(0) =~= message.instructions@);
    let mut i: usize = 0;
    while i < message.instructions.len()
        invariant
            i <= message.instructions@.len(),
            required_signers(message.fee_payer, message.instructions@) == with_signers(
                signers@,
                message.instructions@.skip(i as int),
            ),
        decreases message.instructions@.len() - i,
    {
        proof {
            let rest = message.instructions@.skip(i as int);
            assert(rest[0] == message.instructions@[i as int]);
            assert(rest.drop_first() =~= message.instructions@.skip(i + 1));
        }
        signers = list_signing_accounts(signers, &message.instructions[i].accounts);
        i = i + 1;
    }
    signers
}

/// Whether `message` requires `address` to sign.
pub fn is_required_signer(message: &CompiledMessage, address: &Address) -> (required: bool)
    ensures
        required == must_sign(message.fee_payer, message.instructions@, *address),
{
    proof {
        required_signers_are_those_who_must_sign(message.fee_payer, message.instructions@);
    }
    let signers = signers_of(message);
    holds_address(&signers, address)
}

/// The first of `required` that `provided` does not hold.
fn first_missing(required: &Vec<Address>, provided: &Vec<Address>) -> (missing: Option<usize>)
    ensures
        match missing {
            Some(k) => k < required@.len() && !provided@.contains(required@[k as int]),
            None => forall|k: int| 0 <= k < required@.len() ==> provided@.contains(required@[k]),
        },
{
    let mut k: usize = 0;
    while k < required.len()
        invariant
            k <= required@.len(),
            forall|m: int| 0 <= m < k ==> provided@.contains(required@[m]),
        decreases required@.len() - k,
    {
        if !holds_address(provided, &required[k]) {
            return Some(k);
        }
        k = k + 1;
    }
    None
}

/// Whether every signer that the message requires is among `signers`.
pub open spec fn all_signers_present(message: CompiledMessage, signers: Seq<Address>) -> bool {
    forall|address: Address|
        must_sign(message.fee_payer, message.instructions@, address) ==> signers.contains(address)
}

/// Prepares `message` for signing by `signers`, which are to be exactly the
/// signers that the message requires.
///
/// Where a required signer is absent, the answer is `MissingSignature`.
/// Where all are there and the ledger's format cannot hold the message, it
/// is `SubmissionError`. Otherwise the submission holds the bytes to sign
/// and the required signers, in the order in which they are required.
pub fn prepare(message: &CompiledMessage, signers: &Vec<Address>) -> (prepared: Result<
    Submission,
    LifecycleError,
>)
    requires
        forall|k: int|
            0 <= k < signers@.len() ==> must_sign(
                message.fee_payer,
                message.instructions@,
                #[trigger] signers@[k],
            ),
    ensures
        match prepared {
            Ok(submission) => {
                &&& all_signers_present(*message, signers@)
                &&& wire_bytes(*message) == Some(submission.bytes@)
                &&& submission.signers@ == required_signers(
                    message.fee_payer,
                    message.instructions@,
                )
            },
            Err(error) => {
                &&& error == LifecycleError::MissingSignature || error
                    == LifecycleError::SubmissionError
                &&& error == LifecycleError::MissingSignature <==> !all_signers_present(
                    *message,
                    signers@,
                )
                &&& error == LifecycleError::SubmissionError ==> wire_bytes(*message) is None
            },
        },
{
    let required = signers_of(message);
    proof {
        required_signers_are_those_who_must_sign(message.fee_payer, message.instructions@);
    }
    match first_missing(&required, signers) {
        Some(k) => {
            assert(must_sign(message.fee_payer, message.instructions@, required@[k as int])) by {
                assert(required@.contains(required@[k as int]));
            }
            return Err(LifecycleError::MissingSignature);
        },
        None => {},
    }
    assert(all_signers_present(*message, signers@)) by {
        assert forall|address: Address|
            must_sign(message.fee_payer, message.instructions@, address) implies signers@.contains(
            address,
        ) by {
            assert(required@.contains(address));
            let k = choose|k: int| 0 <= k < required@.len() && required@[k] == address;
            assert(signers@.contains(required@[k]));
        }
    }
    match encode(message) {
        Some(bytes) => Ok(Submission { bytes, signers: required }),
        None => Err(LifecycleError::SubmissionError),
    }
}

/// What the ledger's answer to a transaction means for the caller:
/// a confirmation, or `SubmissionError` where the ledger rejected the
/// transaction or could not confirm it, or `StaleFreshnessToken` where the
/// token expired first.
pub fn conclude(outcome: Outcome) -> (concluded: Result<Confirmation, LifecycleError>)
    ensures
        concluded == match outcome {
            Outcome::Confirmed(confirmation) => Ok::<Confirmation, LifecycleError>(confirmation),
            Outcome::Rejected => Err(LifecycleError::SubmissionError),
            Outcome::Expired => Err(LifecycleError::StaleFreshnessToken),
        },
{
    match outcome {
        Outcome::Confirmed(confirmation) => Ok(confirmation),
        Outcome::Rejected => Err(LifecycleError::SubmissionError),
        Outcome::Expired => Err(LifecycleError::StaleFreshnessToken),
    }
}

} // verus!
