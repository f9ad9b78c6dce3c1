use stellar::contract_state::StateFetcher;
use stellar::error::{StateError, ValueKind};
use stellar::field::{Field, NotePublicKey};
use stellar::find_result::{last_named, unreadable_key, ParsedFindResult};
use stellar::nonmembership::{
    fit_siblings, OpResult, PendingProof, ProofStep, SimulationResponse,
};
use stellar::types::{AspNonMembershipProof, ContractConfig};
use stellar::uint::U256;
use stellar::value::{ContractValue, TableEntry, UInt256Parts};
use stellar_xdr::curr as xdr;
use stellar_xdr::curr::{ReadXdr, WriteXdr};

fn contract() -> String {
    stellar_strkey::Contract([9; 32]).to_string()
}

fn account() -> String {
    stellar_strkey::ed25519::PublicKey([7; 32]).to_string()
}

fn fetcher() -> StateFetcher {
    StateFetcher::new(ContractConfig {
        pool: "CPOOL".to_string(),
        asp_membership: "CMEMBER".to_string(),
        asp_non_membership: contract(),
    })
}

fn element(n: u128) -> Field {
    Field::try_from_u256(U256 { hi: 0, lo: n }).unwrap()
}

fn elements(numbers: &[u128]) -> Vec<Field> {
    numbers.iter().map(|n| element(*n)).collect()
}

fn number(n: u64) -> ContractValue {
    ContractValue::U256(UInt256Parts { hi_hi: 0, hi_lo: 0, lo_hi: 0, lo_lo: n })
}

fn numbers(list: &[u64]) -> ContractValue {
    ContractValue::List(Some(list.iter().map(|n| number(*n)).collect()))
}

fn table(entries: Vec<(&str, ContractValue)>) -> ContractValue {
    ContractValue::Table(Some(
        entries
            .into_iter()
            .map(|(name, val)| TableEntry {
                key: ContractValue::Symbol(name.as_bytes().to_vec()),
                val,
            })
            .collect(),
    ))
}

fn note_key(n: u8) -> NotePublicKey {
    let mut bytes = [0u8; 32];
    bytes[0] = n;
    NotePublicKey(bytes)
}

/// The base64 text of a lookup result with these siblings.
fn lookup_text(found: bool, siblings: &[u64]) -> String {
    let symbol = |name: &str| xdr::ScVal::Symbol(xdr::ScSymbol::try_from(name).unwrap());
    let number = |n: u64| {
        xdr::ScVal::U256(xdr::UInt256Parts { hi_hi: 0, hi_lo: 0, lo_hi: 0, lo_lo: n })
    };
    let items: Vec<xdr::ScVal> = siblings.iter().map(|n| number(*n)).collect();
    let entries = vec![
        xdr::ScMapEntry { key: symbol("found"), val: xdr::ScVal::Bool(found) },
        xdr::ScMapEntry { key: symbol("is_old0"), val: xdr::ScVal::Bool(true) },
        xdr::ScMapEntry { key: symbol("not_found_key"), val: number(11) },
        xdr::ScMapEntry { key: symbol("not_found_value"), val: number(12) },
        xdr::ScMapEntry {
            key: symbol("siblings"),
            val: xdr::ScVal::Vec(Some(xdr::ScVec(xdr::VecM::try_from(items).unwrap()))),
        },
    ];
    xdr::ScVal::Map(Some(xdr::ScMap(xdr::VecM::try_from(entries).unwrap())))
        .to_xdr_base64(xdr::Limits::none())
        .unwrap()
}

/// A proof for the key 5 under the root 77 that waits for its lookup.
fn pending(depth: usize) -> PendingProof {
    let step = fetcher().get_nonmembership_proof(&note_key(5), element(77), depth, &account());
    match step.unwrap() {
        ProofStep::Simulate { pending, .. } => pending,
        ProofStep::Done(_) => panic!("the tree is not empty"),
    }
}

fn message(val: &xdr::ScVal) -> Option<String> {
    let text = val.to_xdr_base64(xdr::Limits::none()).unwrap();
    StateFetcher::lookup_message(&simulated(&text))
}

fn xdr_symbol(bytes: &[u8]) -> xdr::ScVal {
    xdr::ScVal::Symbol(xdr::ScSymbol::try_from(bytes.to_vec()).unwrap())
}

fn xdr_table(entries: Vec<(xdr::ScVal, xdr::ScVal)>) -> xdr::ScVal {
    let entries: Vec<xdr::ScMapEntry> =
        entries.into_iter().map(|(key, val)| xdr::ScMapEntry { key, val }).collect();
    xdr::ScVal::Map(Some(xdr::ScMap(xdr::VecM::try_from(entries).unwrap())))
}

fn simulated(text: &str) -> SimulationResponse {
    let result = Some(OpResult { retval: Some(text.to_string()) });
    SimulationResponse { result, results: vec![] }
}

#[test]
fn siblings_are_padded_with_zeros() {
    let mut siblings = elements(&[1, 2]);
    fit_siblings(&mut siblings, 4);
    assert_eq!(siblings, elements(&[1, 2, 0, 0]));
}

#[test]
fn siblings_are_trimmed_at_the_end() {
    let mut siblings = elements(&[1, 2, 3]);
    fit_siblings(&mut siblings, 2);
    assert_eq!(siblings, elements(&[1, 2]));
}

#[test]
fn siblings_that_fit_stay() {
    let mut siblings = elements(&[1, 2, 3]);
    fit_siblings(&mut siblings, 3);
    assert_eq!(siblings, elements(&[1, 2, 3]));
}

#[test]
fn proof_without_levels_is_refused() {
    assert_eq!(
        fetcher().get_nonmembership_proof(&NotePublicKey([0xff; 32]), element(1), 0, "no"),
        Err(StateError::ZeroSmtDepth)
    );
}

#[test]
fn note_key_must_be_an_element() {
    assert_eq!(
        fetcher().get_nonmembership_proof(&NotePublicKey([0xff; 32]), element(0), 4, "no"),
        Err(StateError::FieldOutOfRange)
    );
}

#[test]
fn empty_tree_has_a_proof_at_once() {
    let step = fetcher().get_nonmembership_proof(&note_key(5), Field::zero(), 3, "no").unwrap();
    assert_eq!(
        step,
        ProofStep::Done(AspNonMembershipProof {
            key: element(5),
            old_key: element(0),
            old_value: element(0),
            is_old0: true,
            siblings: elements(&[0, 0, 0]),
            root: element(0),
        })
    );
}

#[test]
fn other_trees_are_asked_for_the_key() {
    let step =
        fetcher().get_nonmembership_proof(&note_key(5), element(1), 3, &account()).unwrap();
    let expected =
        StateFetcher::build_find_key_simulation_tx(&contract(), &account(), element(5)).unwrap();
    match step {
        ProofStep::Simulate { tx, .. } => assert_eq!(tx, expected),
        ProofStep::Done(_) => panic!("the tree is not empty"),
    }
}

#[test]
fn note_key_is_read_least_significant_byte_first() {
    let mut bytes = [0u8; 32];
    bytes[1] = 1;
    let step = fetcher()
        .get_nonmembership_proof(&NotePublicKey(bytes), element(1), 3, &account())
        .unwrap();
    match step {
        ProofStep::Simulate { pending, tx } => {
            assert_eq!(tx.tx.operations[0].body.host_function.args, vec![number(256)]);
            let sim = simulated(&lookup_text(false, &[]));
            let proof = StateFetcher::finish_nonmembership_proof(pending, &sim).unwrap();
            assert_eq!(proof.key, element(256));
        }
        ProofStep::Done(_) => panic!("the tree is not empty"),
    }
}

#[test]
fn lookup_needs_an_account() {
    assert_eq!(
        fetcher().get_nonmembership_proof(&note_key(5), element(1), 3, "no"),
        Err(StateError::InvalidSourceAccount)
    );
}

#[test]
fn lookup_result_is_read() {
    let val = table(vec![
        ("found", ContractValue::Bool(false)),
        ("is_old0", ContractValue::Bool(true)),
        ("not_found_key", number(11)),
        ("not_found_value", number(12)),
        ("siblings", numbers(&[1, 2, 3])),
    ]);
    assert_eq!(
        StateFetcher::parse_find_result(&val),
        Ok(ParsedFindResult {
            found: false,
            siblings: elements(&[1, 2, 3]),
            not_found_key: element(11),
            not_found_value: element(12),
            is_old0: true,
        })
    );
}

#[test]
fn absent_fields_have_defaults() {
    let nothing = ParsedFindResult {
        found: true,
        siblings: vec![],
        not_found_key: element(0),
        not_found_value: element(0),
        is_old0: false,
    };
    let val = table(vec![("found", ContractValue::Bool(true))]);
    assert_eq!(StateFetcher::parse_find_result(&val), Ok(nothing));
    let val = table(vec![
        ("found", ContractValue::Bool(true)),
        ("siblings", ContractValue::List(None)),
    ]);
    assert!(StateFetcher::parse_find_result(&val).unwrap().siblings.is_empty());
}

#[test]
fn second_names_count_where_the_first_are_absent() {
    let val = table(vec![
        ("found", ContractValue::Bool(false)),
        ("notFoundKey", number(1)),
        ("notFoundValue", number(2)),
        ("isOld0", ContractValue::Bool(true)),
    ]);
    let parsed = StateFetcher::parse_find_result(&val).unwrap();
    assert_eq!(parsed.not_found_key, element(1));
    assert_eq!(parsed.not_found_value, element(2));
    assert!(parsed.is_old0);
    let val = table(vec![
        ("not_found_key", number(3)),
        ("found", ContractValue::Bool(false)),
        ("notFoundKey", ContractValue::Bool(true)),
    ]);
    let parsed = StateFetcher::parse_find_result(&val).unwrap();
    assert_eq!(parsed.not_found_key, element(3));
}

#[test]
fn later_entry_of_a_name_counts() {
    let val = table(vec![
        ("found", ContractValue::Bool(true)),
        ("not_found_key", number(1)),
        ("found", ContractValue::Bool(false)),
        ("not_found_key", number(2)),
    ]);
    let parsed = StateFetcher::parse_find_result(&val).unwrap();
    assert!(!parsed.found);
    assert_eq!(parsed.not_found_key, element(2));
}

#[test]
fn entries_of_other_names_do_not_count() {
    let plain = table(vec![("found", ContractValue::Bool(false)), ("not_found_key", number(1))]);
    let more = table(vec![
        ("found", ContractValue::Bool(false)),
        ("Siblings", ContractValue::Bool(true)),
        ("not_found_key", number(1)),
        ("", number(4)),
    ]);
    assert_eq!(StateFetcher::parse_find_result(&more), StateFetcher::parse_find_result(&plain));
}

#[test]
fn order_of_entries_does_not_count() {
    let one = table(vec![
        ("found", ContractValue::Bool(false)),
        ("notFoundKey", number(1)),
        ("not_found_key", number(2)),
        ("siblings", numbers(&[3, 4])),
    ]);
    let other = table(vec![
        ("siblings", numbers(&[3, 4])),
        ("not_found_key", number(2)),
        ("found", ContractValue::Bool(false)),
        ("notFoundKey", number(1)),
    ]);
    let parsed = StateFetcher::parse_find_result(&one).unwrap();
    assert_eq!(parsed.not_found_key, element(2));
    assert_eq!(StateFetcher::parse_find_result(&other), Ok(parsed));
}

#[test]
fn only_a_table_is_a_lookup_result() {
    let not_table = Err(StateError::FindResultNotTable);
    assert_eq!(StateFetcher::parse_find_result(&ContractValue::Table(None)), not_table);
    assert_eq!(StateFetcher::parse_find_result(&ContractValue::Bool(false)), not_table);
    assert_eq!(StateFetcher::parse_find_result(&numbers(&[1])), not_table);
}

#[test]
fn every_field_name_must_be_readable() {
    let with = |key: ContractValue| {
        ContractValue::Table(Some(vec![
            TableEntry {
                key: ContractValue::Symbol(b"found".to_vec()),
                val: ContractValue::Bool(false),
            },
            TableEntry { key, val: ContractValue::Bool(false) },
        ]))
    };
    assert_eq!(
        StateFetcher::parse_find_result(&with(ContractValue::U32(1))),
        Err(StateError::FindResultFieldName)
    );
    assert_eq!(
        StateFetcher::parse_find_result(&with(ContractValue::Symbol(vec![0xff, 0xfe]))),
        Err(StateError::FindResultFieldText)
    );
    assert!(StateFetcher::parse_find_result(&with(ContractValue::Symbol(vec![0xc3, 0xa9]))).is_ok());
}

#[test]
fn lookup_result_must_say_whether_the_key_was_found() {
    assert_eq!(
        StateFetcher::parse_find_result(&table(vec![("siblings", ContractValue::Bool(true))])),
        Err(StateError::FindResultMissingFound)
    );
    assert_eq!(
        StateFetcher::parse_find_result(&table(vec![("found", number(1))])),
        Err(StateError::UnexpectedValue { expected: ValueKind::Bool })
    );
}

#[test]
fn fields_of_another_kind_are_refused() {
    let parse = |name: &str, val: ContractValue| {
        StateFetcher::parse_find_result(&table(vec![
            ("found", ContractValue::Bool(false)),
            (name, val),
        ]))
    };
    let expected = |kind: ValueKind| StateError::UnexpectedValue { expected: kind };
    assert_eq!(
        parse("siblings", ContractValue::Bool(true)),
        Err(StateError::FindResultSiblings)
    );
    assert_eq!(
        parse("siblings", ContractValue::List(Some(vec![number(1), ContractValue::U64(2)]))),
        Err(expected(ValueKind::U256))
    );
    let too_large =
        || ContractValue::U256(UInt256Parts { hi_hi: u64::MAX, hi_lo: 0, lo_hi: 0, lo_lo: 0 });
    assert_eq!(
        parse("siblings", ContractValue::List(Some(vec![too_large(), ContractValue::U64(2)]))),
        Err(StateError::FieldOutOfRange)
    );
    assert_eq!(parse("not_found_key", ContractValue::U64(1)), Err(expected(ValueKind::U256)));
    assert_eq!(parse("notFoundKey", too_large()), Err(StateError::FieldOutOfRange));
    assert_eq!(parse("not_found_value", too_large()), Err(StateError::FieldOutOfRange));
    assert_eq!(parse("isOld0", number(1)), Err(expected(ValueKind::Bool)));
}

#[test]
fn proof_is_completed_from_a_simulation() {
    let proof = StateFetcher::finish_nonmembership_proof(
        pending(4),
        &simulated(&lookup_text(false, &[1, 2])),
    );
    assert_eq!(
        proof,
        Ok(AspNonMembershipProof {
            key: element(5),
            old_key: element(11),
            old_value: element(12),
            is_old0: true,
            siblings: elements(&[1, 2, 0, 0]),
            root: element(77),
        })
    );
}

#[test]
fn proof_has_one_sibling_per_level() {
    for depth in [1usize, 2, 3, 8] {
        let proof = StateFetcher::finish_nonmembership_proof(
            pending(depth),
            &simulated(&lookup_text(false, &[1, 2, 3])),
        )
        .unwrap();
        assert_eq!(proof.siblings.len(), depth);
        assert_eq!(proof.siblings[0], element(1));
    }
}

#[test]
fn depth_changes_only_the_siblings() {
    let sim = simulated(&lookup_text(false, &[1, 2, 3]));
    let finish = |depth: usize| {
        StateFetcher::finish_nonmembership_proof(pending(depth), &sim).unwrap()
    };
    let shallow = finish(2);
    let deep = finish(5);
    assert_eq!(shallow.siblings, elements(&[1, 2]));
    assert_eq!(deep.siblings, elements(&[1, 2, 3, 0, 0]));
    assert_eq!(AspNonMembershipProof { siblings: vec![], ..shallow }, AspNonMembershipProof {
        siblings: vec![],
        ..deep
    });
}

#[test]
fn key_in_the_tree_has_no_proof() {
    assert_eq!(
        StateFetcher::finish_nonmembership_proof(
            pending(4),
            &simulated(&lookup_text(true, &[1])),
        ),
        Err(StateError::KeyExists)
    );
    assert_eq!(
        StateFetcher::nonmembership_proof_from_lookup(
            element(5),
            element(77),
            4,
            &table(vec![("found", ContractValue::Bool(true))]),
        ),
        Err(StateError::KeyExists)
    );
}

#[test]
fn first_operation_result_stands_in_for_a_missing_one() {
    let sim = SimulationResponse {
        result: None,
        results: vec![
            OpResult { retval: Some("first".to_string()) },
            OpResult { retval: Some("second".to_string()) },
        ],
    };
    assert_eq!(StateFetcher::simulation_retval(&sim), Ok(&"first".to_string()));
    let sim = SimulationResponse {
        result: Some(OpResult { retval: Some("own".to_string()) }),
        results: vec![OpResult { retval: Some("first".to_string()) }],
    };
    assert_eq!(StateFetcher::simulation_retval(&sim), Ok(&"own".to_string()));
}

#[test]
fn simulation_must_return_a_value() {
    let finish = |sim: &SimulationResponse| {
        StateFetcher::finish_nonmembership_proof(pending(4), sim)
    };
    assert_eq!(
        finish(&SimulationResponse { result: None, results: vec![] }),
        Err(StateError::NoOpResults)
    );
    assert_eq!(
        finish(&SimulationResponse {
            result: Some(OpResult { retval: None }),
            results: vec![OpResult { retval: Some(lookup_text(false, &[])) }],
        }),
        Err(StateError::MissingRetval)
    );
    assert_eq!(finish(&simulated("?")), Err(StateError::InvalidRetval));
    assert_eq!(finish(&simulated("AAAAAwAAAAc=")), Err(StateError::FindResultNotTable));
}

#[test]
fn unreadable_keys_are_found() {
    let entry = |key: ContractValue| TableEntry { key, val: ContractValue::Bool(true) };
    let symbol = |bytes: &[u8]| entry(ContractValue::Symbol(bytes.to_vec()));
    assert_eq!(unreadable_key(&vec![]), None);
    assert_eq!(unreadable_key(&vec![symbol(b"a"), symbol(b"b")]), None);
    assert_eq!(
        unreadable_key(&vec![symbol(b"a"), symbol(&[0xff]), entry(ContractValue::U32(1))]),
        Some(1)
    );
    assert_eq!(unreadable_key(&vec![entry(ContractValue::U32(1)), symbol(&[0xff])]), Some(0));
}

#[test]
fn last_entry_of_a_name_is_found() {
    let symbol = |bytes: &[u8]| TableEntry {
        key: ContractValue::Symbol(bytes.to_vec()),
        val: ContractValue::Bool(true),
    };
    let table = vec![symbol(b"a"), symbol(b"b"), symbol(b"a"), symbol(b"c")];
    assert_eq!(last_named(&table, "a"), Some(2));
    assert_eq!(last_named(&table, "c"), Some(3));
    assert_eq!(last_named(&table, "d"), None);
}

#[test]
fn lookup_message_shows_a_value_that_is_no_table() {
    let val = xdr::ScVal::Vec(Some(xdr::ScVec(
        xdr::VecM::try_from(vec![xdr::ScVal::Bool(true)]).unwrap(),
    )));
    assert_eq!(
        message(&val),
        Some(format!("FindResult: expected ScVal::Map, got {:?}", val))
    );
    assert_eq!(
        message(&xdr::ScVal::Bool(true)),
        Some("FindResult: expected ScVal::Map, got Bool(true)".to_string())
    );
}

#[test]
fn lookup_message_shows_the_first_unreadable_name() {
    let yes = || xdr::ScVal::Bool(true);
    let val = xdr_table(vec![
        (xdr_symbol(b"found"), yes()),
        (xdr::ScVal::U32(7), yes()),
        (xdr::ScVal::U32(8), yes()),
        (xdr_symbol(&[0xff]), yes()),
    ]);
    assert_eq!(
        message(&val),
        Some("FindResult: field name should be a symbol: U32(7)".to_string())
    );
    let val = xdr_table(vec![(xdr_symbol(&[b'a', 0xff]), yes()), (xdr::ScVal::U32(7), yes())]);
    assert_eq!(
        message(&val),
        Some("invalid utf-8 sequence of 1 bytes from index 1".to_string())
    );
}

#[test]
fn lookup_message_shows_the_siblings_that_count() {
    let val = xdr_table(vec![
        (xdr_symbol(b"siblings"), xdr::ScVal::U32(1)),
        (xdr_symbol(b"siblings"), xdr::ScVal::U32(2)),
        (xdr_symbol(b"found"), xdr::ScVal::Bool(false)),
    ]);
    assert_eq!(
        message(&val),
        Some("FindResult.siblings: unexpected ScVal: U32(2)".to_string())
    );
}

#[test]
fn lookup_message_hands_on_what_the_decoder_says() {
    let failure = xdr::ScVal::from_xdr_base64("AAAA", xdr::Limits::none()).unwrap_err();
    assert_eq!(
        StateFetcher::lookup_message(&simulated("AAAA")),
        Some(failure.to_string())
    );
}

#[test]
fn lookup_message_is_given_exactly_on_failure() {
    assert_eq!(
        StateFetcher::lookup_message(&simulated(&lookup_text(false, &[1]))),
        None
    );
    assert_eq!(
        StateFetcher::lookup_message(&simulated(&lookup_text(true, &[1]))),
        StateError::KeyExists.message()
    );
    assert_eq!(
        StateFetcher::lookup_message(&SimulationResponse { result: None, results: vec![] }),
        StateError::NoOpResults.message()
    );
    assert_eq!(message(&xdr_table(vec![])), StateError::FindResultMissingFound.message());
}
