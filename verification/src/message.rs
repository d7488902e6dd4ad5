//! Compiling a set of instructions against lookup tables: each account that
//! an instruction refers to is named by a table and an index where a table
//! holds it, and by its full address where none does.

use vstd::prelude::*;
use crate::address::{find_address, first_index, first_index_is_first, Address};
use crate::instruction::Instruction;
use crate::table::{LookupTable, TableStatus};

verus! {

/// A reference to a recent block, which bounds how long a message stays
/// valid.
#[verifier::ext_equal]
#[derive(Clone, Copy, Debug, PartialEq, Eq)]
pub struct Freshness {
    pub bytes: [u8; 32],
}

impl View for Freshness {
    type V = Seq<u8>;

    open spec fn view(&self) -> Seq<u8> {
        self.bytes@
    }
}

/// How a compiled message names one account.
#[derive(Clone, Copy, Debug, PartialEq, Eq)]
pub enum Reference {
    /// By its full address, embedded in the message.
    Static(Address),
    /// By the address of a lookup table and the index of the entry in it.
    Indexed { table: Address, index: usize },
}

/// Why a set of instructions could not be compiled.
#[derive(Clone, Copy, Debug, PartialEq, Eq, Structural)]
pub enum CompileError {
    /// No fee payer was given, so nobody would sign the message.
    NoSignerSpecified,
    /// A table that is not `Active` holds an address that the instructions
    /// refer to.
    TableNotReadable,
}

/// A message ready to be signed: who pays, until when it is valid, what it
/// asks for, the tables it was compiled against, and how each account of
/// each instruction is named.
#[derive(Clone, Debug, PartialEq, Eq)]
pub struct CompiledMessage {
    /// The account that pays the fee and signs first.
    pub fee_payer: Address,
    /// The recent block that the message is bound to.
    pub freshness: Freshness,
    /// The instructions, as they were handed in.
    pub instructions: Vec<Instruction>,
    /// The tables, in the order in which they were searched.
    pub tables: Vec<LookupTable>,
    /// For each instruction, how each of its accounts is named.
    pub references: Vec<Vec<Reference>>,
}

/// Whether some instruction refers to `address`.
pub open spec fn refers_to(instructions: Seq<Instruction>, address: Address) -> bool {
    exists|i: int, j: int|
        0 <= i < instructions.len() && 0 <= j < instructions[i].accounts@.len()
            && (#[trigger] instructions[i].accounts@[j]).address == address
}

/// Whether `table` holds an address that some instruction refers to.
pub open spec fn table_referenced(instructions: Seq<Instruction>, table: LookupTable) -> bool {
    exists|k: int|
        0 <= k < table.addresses@.len() && refers_to(instructions, #[trigger] table.addresses@[k])
}

/// Whether some table that is not `Active` holds an address that the
/// instructions refer to.
pub open spec fn unreadable_table(instructions: Seq<Instruction>, tables: Seq<LookupTable>) -> bool {
    exists|t: int|
        0 <= t < tables.len() && (#[trigger] tables[t]).status != TableStatus::Active
            && table_referenced(instructions, tables[t])
}

/// The first table, in the given order, that holds `address`, with the index
/// of the address in it.
pub open spec fn lookup(tables: Seq<LookupTable>, address: Address) -> Option<(Address, int)>
    decreases tables.len(),
{
    if tables.len() == 0 {
        None
    } else {
        match first_index(tables[0].addresses@, address) {
            Some(index) => Some((tables[0].address, index)),
            None => lookup(tables.drop_first(), address),
        }
    }
}

/// How a message compiled against `tables` names `address`.
pub open spec fn reference_for(tables: Seq<LookupTable>, address: Address) -> Reference {
    match lookup(tables, address) {
        Some((table, index)) => Reference::Indexed { table, index: index as usize },
        None => Reference::Static(address),
    }
}

/// How a message compiled against `tables` names the accounts of one
/// instruction.
pub open spec fn references_for(tables: Seq<LookupTable>, instruction: Instruction) -> Seq<
    Reference,
> {
    Seq::new(
        instruction.accounts@.len(),
        |j: int| reference_for(tables, instruction.accounts@[j].address),
    )
}

impl CompiledMessage {
    /// The references are those that the tables give for the instructions'
    /// accounts, one for one.
    pub open spec fn well_formed(&self) -> bool {
        &&& self.references@.len() == self.instructions@.len()
        &&& forall|i: int|
            0 <= i < self.instructions@.len() ==> (#[trigger] self.references@[i])@
                == references_for(self.tables@, self.instructions@[i])
    }
}

/// Skipping a table that does not hold the address changes nothing.
proof fn lookup_skips(tables: Seq<LookupTable>, address: Address, t: int)
    requires
        0 <= t <= tables.len(),
        forall|k: int| 0 <= k < t ==> first_index(tables[k].addresses@, address) is None,
    ensures
        lookup(tables, address) == lookup(tables.skip(t), address),
    decreases t,
{
    if t == 0 {
        assert(tables.skip(0) =~= tables);
    } else {
        lookup_skips(tables, address, t - 1);
        let rest = tables.skip(t - 1);
        assert(rest[0] == tables[t - 1]);
        assert(rest.drop_first() =~= tables.skip(t));
    }
}

/// Whether `instruction` refers to `address`.
fn instruction_refers_to(instruction: &Instruction, address: &Address) -> (found: bool)
    ensures
        found == exists|j: int|
            0 <= j < instruction.accounts@.len() && (#[trigger] instruction.accounts@[j]).address
                == *address,
{
    let mut j: usize = 0;
    while j < instruction.accounts.len()
        invariant
            j <= instruction.accounts@.len(),
            forall|k: int| 0 <= k < j ==> (#[trigger] instruction.accounts@[k]).address != *address,
        decreases instruction.accounts@.len() - j,
    {
        if instruction.accounts[j].address.same(address) {
            return true;
        }
        j = j + 1;
    }
    false
}

/// Whether some instruction refers to `address`.
pub fn is_referenced(instructions: &Vec<Instruction>, address: &Address) -> (found: bool)
    ensures
        found == refers_to(instructions@, *address),
{
    let mut i: usize = 0;
    while i < instructions.len()
        invariant
            i <= instructions@.len(),
            forall|a: int, b: int|
                0 <= a < i && 0 <= b < instructions@[a].accounts@.len() ==> (
                #[trigger] instructions@[a].accounts@[b]).address != *address,
        decreases instructions@.len() - i,
    {
        if instruction_refers_to(&instructions[i], address) {
            return true;
        }
        i = i + 1;
    }
    false
}

/// Whether `table` holds an address that some instruction refers to.
fn holds_referenced(instructions: &Vec<Instruction>, table: &LookupTable) -> (found: bool)
    ensures
        found == table_referenced(instructions@, *table),
{
    let mut k: usize = 0;
    while k < table.addresses.len()
        invariant
            k <= table.addresses@.len(),
            forall|m: int| 0 <= m < k ==> !refers_to(instructions@, #[trigger] table.addresses@[m]),
        decreases table.addresses@.len() - k,
    {
        if is_referenced(instructions, &table.addresses[k]) {
            return true;
        }
        k = k + 1;
    }
    false
}

/// Whether some table that is not `Active` holds an address that the
/// instructions refer to.
pub fn has_unreadable_table(instructions: &Vec<Instruction>, tables: &Vec<LookupTable>) -> (found:
    bool)
    ensures
        found == unreadable_table(instructions@, tables@),
{
    let mut t: usize = 0;
    while t < tables.len()
        invariant
            t <= tables@.len(),
            forall|m: int|
                0 <= m < t ==> (#[trigger] tables@[m]).status == TableStatus::Active
                    || !table_referenced(instructions@, tables@[m]),
        decreases tables@.len() - t,
    {
        if !tables[t].status.readable() && holds_referenced(instructions, &tables[t]) {
            return true;
        }
        t = t + 1;
    }
    false
}

/// How a message compiled against `tables` names `address`: by the first
/// table that holds it, or else by the address itself.
pub fn resolve(tables: &Vec<LookupTable>, address: &Address) -> (reference: Reference)
    ensures
        reference == reference_for(tables@, *address),
{
    let mut t: usize = 0;
    while t < tables.len()
        invariant
            t <= tables@.len(),
            forall|k: int| 0 <= k < t ==> first_index(tables@[k].addresses@, *address) is None,
        decreases tables@.len() - t,
    {
        match find_address(&tables[t].addresses, address) {
            Some(index) => {
                proof {
                    lookup_skips(tables@, *address, t as int);
                    assert(tables@.skip(t as int)[0] == tables@[t as int]);
                }
                return Reference::Indexed { table: tables[t].address, index };
            },
            None => {},
        }
        t = t + 1;
    }
    proof {
        lookup_skips(tables@, *address, t as int);
    }
    Reference::Static(*address)
}

/// How a message compiled against `tables` names each account of
/// `instruction`.
fn resolve_accounts(tables: &Vec<LookupTable>, instruction: &Instruction) -> (references: Vec<
    Reference,
>)
    ensures
        references@ == references_for(tables@, *instruction),
{
    let mut references: Vec<Reference> = Vec::new();
    let mut j: usize = 0;
    while j < instruction.accounts.len()
        invariant
            j <= instruction.accounts@.len(),
            references@.len() == j,
            forall|k: int|
                0 <= k < j ==> references@[k] == reference_for(
                    tables@,
                    instruction.accounts@[k].address,
                ),
        decreases instruction.accounts@.len() - j,
    {
        references.push(resolve(tables, &instruction.accounts[j].address));
        j = j + 1;
    }
    references
}

/// Compiles `instructions` for `fee_payer` against `tables`.
///
/// Every account that an instruction refers to is looked for in the tables,
/// in the order given; the first table that holds it names it, and an account
/// that no table holds is embedded. Without a fee payer nothing is compiled,
/// and neither where a table that is not yet `Active` holds an account that
/// the instructions refer to; a missing fee payer is reported first.
pub fn compile(
    fee_payer: Option<Address>,
    instructions: Vec<Instruction>,
    tables: Vec<LookupTable>,
    freshness: Freshness,
) -> (compiled: Result<CompiledMessage, CompileError>)
    ensures
        match compiled {
            Ok(message) => {
                &&& fee_payer == Some(message.fee_payer)
                &&& !unreadable_table(instructions@, tables@)
                &&& message.freshness == freshness
                &&& message.instructions == instructions
                &&& message.tables == tables
                &&& message.well_formed()
            },
            Err(CompileError::NoSignerSpecified) => fee_payer is None,
            Err(CompileError::TableNotReadable) => fee_payer is Some && unreadable_table(
                instructions@,
                tables@,
            ),
        },
{
    let payer = match fee_payer {
        Some(payer) => payer,
        None => {
            return Err(CompileError::NoSignerSpecified);
        },
    };
    if has_unreadable_table(&instructions, &tables) {
        return Err(CompileError::TableNotReadable);
    }
    let mut references: Vec<Vec<Reference>> = Vec::new();
    let mut i: usize = 0;
    while i < instructions.len()
        invariant
            i <= instructions@.len(),
            references@.len() == i,
            forall|k: int|
                0 <= k < i ==> (#[trigger] references@[k])@ == references_for(
                    tables@,
                    instructions@[k],
                ),
        decreases instructions@.len() - i,
    {
        references.push(resolve_accounts(&tables, &instructions[i]));
        i = i + 1;
    }
    Ok(CompiledMessage { fee_payer: payer, freshness, instructions, tables, references })
}

impl CompiledMessage {
    /// How the message names `address`; `None` where no instruction refers
    /// to it.
    pub fn encoding_of(&self, address: &Address) -> (encoding: Option<Reference>)
        ensures
            encoding == if refers_to(self.instructions@, *address) {
                Some(reference_for(self.tables@, *address))
            } else {
                None
            },
    {
        if is_referenced(&self.instructions, address) {
            Some(resolve(&self.tables, address))
        } else {
            None
        }
    }
}

/// The first table that holds an address names it, at the index of the
/// address in that table: where no table before `tables[t]` holds `address`
/// and `index` is its first position in `tables[t]`, the reference is that
/// table and that index.
pub proof fn first_holder_names_address(
    tables: Seq<LookupTable>,
    address: Address,
    t: int,
    index: int,
)
    requires
        0 <= t < tables.len(),
        forall|k: int| 0 <= k < t ==> !(#[trigger] tables[k]).addresses@.contains(address),
        0 <= index < tables[t].addresses@.len(),
        tables[t].addresses@[index] == address,
        forall|j: int| 0 <= j < index ==> tables[t].addresses@[j] != address,
    ensures
        reference_for(tables, address) == (Reference::Indexed {
            table: tables[t].address,
            index: index as usize,
        }),
{
    assert forall|k: int| 0 <= k < t implies first_index(tables[k].addresses@, address)
        is None by {
        assert(!tables[k].addresses@.contains(address));
        first_index_is_first(tables[k].addresses@, address);
    }
    lookup_skips(tables, address, t);
    assert(tables.skip(t)[0] == tables[t]);
    first_index_is_first(tables[t].addresses@, address);
}

/// An address that no table holds is embedded.
pub proof fn unheld_address_is_static(tables: Seq<LookupTable>, address: Address)
    requires
        forall|k: int| 0 <= k < tables.len() ==> !(#[trigger] tables[k]).addresses@.contains(address),
    ensures
        reference_for(tables, address) == Reference::Static(address),
{
    assert forall|k: int| 0 <= k < tables.len() implies first_index(
        tables[k].addresses@,
        address,
    ) is None by {
        assert(!tables[k].addresses@.contains(address));
        first_index_is_first(tables[k].addresses@, address);
    }
    lookup_skips(tables, address, tables.len() as int);
}

/// In a compiled message, an account of an instruction that a table holds is
/// named by the first such table and by the index that the account has
/// there, and is not embedded.
pub proof fn held_account_is_indexed(
    message: CompiledMessage,
    i: int,
    j: int,
    t: int,
    index: int,
)
    requires
        message.well_formed(),
        0 <= i < message.instructions@.len(),
        0 <= j < message.instructions@[i].accounts@.len(),
        0 <= t < message.tables@.len(),
        forall|k: int|
            0 <= k < t ==> !(#[trigger] message.tables@[k]).addresses@.contains(
                message.instructions@[i].accounts@[j].address,
            ),
        0 <= index < message.tables@[t].addresses@.len(),
        message.tables@[t].addresses@[index] == message.instructions@[i].accounts@[j].address,
        forall|m: int|
            0 <= m < index ==> message.tables@[t].addresses@[m]
                != message.instructions@[i].accounts@[j].address,
    ensures
        message.references@[i]@[j] == (Reference::Indexed {
            table: message.tables@[t].address,
            index: index as usize,
        }),
{
    first_holder_names_address(
        message.tables@,
        message.instructions@[i].accounts@[j].address,
        t,
        index,
    );
}

/// Whether a reference names its account by a table.
pub open spec fn is_indexed(reference: Reference) -> bool {
    reference is Indexed
}

/// Where every account that the instructions refer to lives in some table,
/// the compiled message embeds none of them: every reference is a table and
/// an index.
pub proof fn held_accounts_are_all_indexed(message: CompiledMessage)
    requires
        message.well_formed(),
        forall|i: int, j: int|
            0 <= i < message.instructions@.len() && 0 <= j
                < message.instructions@[i].accounts@.len() ==> exists|t: int|
                0 <= t < message.tables@.len() && (#[trigger] message.tables@[t]).addresses@.contains(
                    (#[trigger] message.instructions@[i].accounts@[j]).address,
                ),
    ensures
        forall|i: int, j: int|
            0 <= i < message.instructions@.len() && 0 <= j
                < message.instructions@[i].accounts@.len() ==> is_indexed(
                #[trigger] message.references@[i]@[j],
            ),
{
    assert forall|i: int, j: int|
        0 <= i < message.instructions@.len() && 0 <= j
            < message.instructions@[i].accounts@.len() implies is_indexed(
        #[trigger] message.references@[i]@[j],
    ) by {
        let address = message.instructions@[i].accounts@[j].address;
        assert(message.references@[i]@ == references_for(message.tables@, message.instructions@[i]));
        assert(message.references@[i]@[j] == reference_for(message.tables@, address));
        let t = choose|t: int|
            0 <= t < message.tables@.len() && (#[trigger] message.tables@[t]).addresses@.contains(
                (#[trigger] message.instructions@[i].accounts@[j]).address,
            );
        held_somewhere_is_found(message.tables@, address, t);
    }
}

/// An address that some table holds is found by `lookup`.
proof fn held_somewhere_is_found(tables: Seq<LookupTable>, address: Address, t: int)
    requires
        0 <= t < tables.len(),
        tables[t].addresses@.contains(address),
    ensures
        lookup(tables, address) is Some,
    decreases tables.len(),
{
    first_index_is_first(tables[0].addresses@, address);
    if first_index(tables[0].addresses@, address) is None {
        assert(t > 0);
        assert(tables.drop_first()[t - 1] == tables[t]);
        held_somewhere_is_found(tables.drop_first(), address, t - 1);
    }
}

} // verus!
