use stellar::error::{StateError, ValueKind};

#[test]
fn missing_key_is_named_with_its_contract() {
    let error = |contract: &str| StateError::MissingStateKey {
        key: "Levels",
        contract: contract.to_string(),
    };
    assert_eq!(
        error("CPOOL").message().unwrap(),
        "missing Levels state key in the contract \"CPOOL\""
    );
    assert_eq!(
        error("a\"b").message().unwrap(),
        "missing Levels state key in the contract \"a\\\"b\""
    );
}

#[test]
fn amount_is_named() {
    let error = StateError::DoesNotFitI128 { what: "maximum_deposit_amount" };
    assert_eq!(error.message().unwrap(), "maximum_deposit_amount does not fit into i128");
}

#[test]
fn expected_kind_is_named() {
    let message = |expected: ValueKind| StateError::UnexpectedValue { expected }.message().unwrap();
    assert_eq!(message(ValueKind::Bool), "expected a boolean");
    assert_eq!(message(ValueKind::U32), "expected a 32-bit number");
    assert_eq!(message(ValueKind::U64), "expected a 64-bit number");
    assert_eq!(message(ValueKind::U256), "expected a 256-bit number");
    assert_eq!(message(ValueKind::Address), "expected an address");
}

#[test]
fn failed_decoders_are_quoted() {
    let strkey = stellar_strkey::DecodeError::Invalid.to_string();
    assert_eq!(StateError::InvalidSourceAccount.message().unwrap(), strkey);
    assert_eq!(StateError::InvalidContractId.message().unwrap(), strkey);
    let length = stellar_xdr::curr::Error::LengthExceedsMax.to_string();
    assert_eq!(StateError::LengthExceedsMax.message().unwrap(), length);
}

#[test]
fn other_failures_have_a_fixed_text() {
    let expected = vec![
        (StateError::FieldOutOfRange, "the number is not below the order of the field"),
        (StateError::ZeroSmtDepth, "smt_depth must be > 0"),
        (StateError::InvalidFunctionName, "invalid function name"),
        (StateError::NoOpResults, "simulateTransaction returned no op results"),
        (StateError::MissingRetval, "simulateTransaction missing retval"),
        (StateError::FindResultMissingFound, "FindResult missing field: found"),
        (StateError::KeyExists, "Key exists in non-membership tree (user is sanctioned)"),
    ];
    for (error, text) in expected {
        assert_eq!(error.message().unwrap(), text);
    }
}

#[test]
fn failed_lookups_have_no_text_of_their_own() {
    assert_eq!(StateError::InvalidRetval.message(), None);
    assert_eq!(StateError::FindResultNotTable.message(), None);
    assert_eq!(StateError::FindResultFieldName.message(), None);
    assert_eq!(StateError::FindResultFieldText.message(), None);
    assert_eq!(StateError::FindResultSiblings.message(), None);
}
