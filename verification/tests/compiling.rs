use alt_lifecycle::address::Address;
use alt_lifecycle::instruction::{transfer, AccountMeta, Instruction};
use alt_lifecycle::message::{
    compile, has_unreadable_table, is_referenced, resolve, CompileError, Freshness, Reference,
};
use alt_lifecycle::table::{LookupTable, TableStatus};

fn addr(seed: u8) -> Address {
    Address::new([seed; 32])
}

fn table_of(seed: u8, entries: Vec<Address>, status: TableStatus) -> LookupTable {
    LookupTable {
        address: addr(seed),
        addresses: entries,
        authority: addr(200),
        update_authority: Some(addr(200)),
        creation_slot: 1,
        status,
    }
}

fn touching(accounts: Vec<Address>) -> Instruction {
    Instruction {
        program: addr(250),
        accounts: accounts
            .into_iter()
            .map(|address| AccountMeta { address, signer: false, writable: false })
            .collect(),
        payload: vec![1, 2, 3],
    }
}

fn token() -> Freshness {
    Freshness { bytes: [42u8; 32] }
}

#[test]
fn address_in_active_table_is_named_by_index_three() {
    let a = addr(10);
    let table = table_of(100, vec![addr(1), addr(2), addr(3), a, addr(4)], TableStatus::Active);
    let message =
        compile(Some(addr(50)), vec![touching(vec![a])], vec![table], token()).unwrap();
    assert_eq!(message.references, vec![vec![Reference::Indexed { table: addr(100), index: 3 }]]);
    assert_eq!(message.encoding_of(&a), Some(Reference::Indexed { table: addr(100), index: 3 }));
    assert_ne!(message.encoding_of(&a), Some(Reference::Static(a)));
}

#[test]
fn table_that_is_only_extended_is_not_readable() {
    let a = addr(10);
    let table = table_of(100, vec![addr(1), a], TableStatus::Extended);
    let compiled = compile(Some(addr(50)), vec![touching(vec![a])], vec![table], token());
    assert_eq!(compiled, Err(CompileError::TableNotReadable));
}

#[test]
fn table_that_is_only_created_is_not_readable() {
    let a = addr(10);
    let table = table_of(100, vec![a], TableStatus::Created);
    let compiled = compile(Some(addr(50)), vec![touching(vec![a])], vec![table], token());
    assert_eq!(compiled, Err(CompileError::TableNotReadable));
}

#[test]
fn unreadable_table_without_referenced_address_is_ignored() {
    let a = addr(10);
    let pending = table_of(100, vec![addr(1), addr(2)], TableStatus::Extended);
    let message =
        compile(Some(addr(50)), vec![touching(vec![a])], vec![pending], token()).unwrap();
    assert_eq!(message.references, vec![vec![Reference::Static(a)]]);
}

#[test]
fn unreadable_table_behind_a_readable_one_still_fails() {
    let a = addr(10);
    let active = table_of(100, vec![a], TableStatus::Active);
    let pending = table_of(101, vec![a], TableStatus::Extended);
    let compiled =
        compile(Some(addr(50)), vec![touching(vec![a])], vec![active, pending], token());
    assert_eq!(compiled, Err(CompileError::TableNotReadable));
}

#[test]
fn missing_fee_payer_is_reported() {
    let compiled = compile(None, vec![touching(vec![addr(1)])], vec![], token());
    assert_eq!(compiled, Err(CompileError::NoSignerSpecified));
}

#[test]
fn missing_fee_payer_is_reported_before_an_unreadable_table() {
    let a = addr(10);
    let table = table_of(100, vec![a], TableStatus::Extended);
    let compiled = compile(None, vec![touching(vec![a])], vec![table], token());
    assert_eq!(compiled, Err(CompileError::NoSignerSpecified));
}

#[test]
fn address_in_no_table_is_embedded() {
    let a = addr(10);
    let b = addr(11);
    let table = table_of(100, vec![a], TableStatus::Active);
    let message =
        compile(Some(addr(50)), vec![touching(vec![b, a, b])], vec![table], token()).unwrap();
    assert_eq!(
        message.references,
        vec![vec![
            Reference::Static(b),
            Reference::Indexed { table: addr(100), index: 0 },
            Reference::Static(b),
        ]]
    );
    assert_eq!(message.encoding_of(&b), Some(Reference::Static(b)));
    assert_eq!(message.encoding_of(&addr(12)), None);
}

#[test]
fn first_table_in_the_given_order_wins() {
    let a = addr(10);
    let first = table_of(100, vec![addr(1), a], TableStatus::Active);
    let second = table_of(101, vec![a], TableStatus::Active);
    let tables = vec![first.clone(), second.clone()];
    assert_eq!(resolve(&tables, &a), Reference::Indexed { table: addr(100), index: 1 });
    let swapped = vec![second, first];
    assert_eq!(resolve(&swapped, &a), Reference::Indexed { table: addr(101), index: 0 });
}

#[test]
fn first_occurrence_in_a_table_gives_the_index() {
    let a = addr(10);
    let table = table_of(100, vec![addr(1), a, addr(2), a], TableStatus::Active);
    assert_eq!(resolve(&vec![table], &a), Reference::Indexed { table: addr(100), index: 1 });
}

#[test]
fn compiled_message_keeps_what_it_was_given() {
    let payer = addr(50);
    let instructions = vec![touching(vec![addr(1)]), transfer(&payer, &addr(2), 5)];
    let tables = vec![table_of(100, vec![addr(2)], TableStatus::Active)];
    let message = compile(Some(payer), instructions.clone(), tables.clone(), token()).unwrap();
    assert_eq!(message.fee_payer, payer);
    assert_eq!(message.freshness, token());
    assert_eq!(message.instructions, instructions);
    assert_eq!(message.tables, tables);
    assert_eq!(
        message.references,
        vec![
            vec![Reference::Static(addr(1))],
            vec![Reference::Static(payer), Reference::Indexed { table: addr(100), index: 0 }],
        ]
    );
}

#[test]
fn empty_instruction_set_compiles_to_no_references() {
    let message = compile(Some(addr(50)), vec![], vec![], token()).unwrap();
    assert!(message.references.is_empty());
    assert!(message.instructions.is_empty());
}

#[test]
fn the_program_of_an_instruction_is_not_a_referenced_address() {
    let instructions = vec![touching(vec![addr(1)])];
    assert!(is_referenced(&instructions, &addr(1)));
    assert!(!is_referenced(&instructions, &addr(250)));
    let pending = table_of(100, vec![addr(250)], TableStatus::Extended);
    assert!(!has_unreadable_table(&instructions, &vec![pending.clone()]));
    assert!(compile(Some(addr(50)), instructions, vec![pending], token()).is_ok());
}
