use stellar::contract_state::StateFetcher;
use stellar::error::StateError;
use stellar::field::Field;
use stellar::transaction::{
    InvokeContractArgs, InvokeHostFunctionOp, Memo, MuxedAccount, Operation, Preconditions,
    ScAddress, SequenceNumber, Transaction, TransactionEnvelope, TransactionExt,
};
use stellar::uint::U256;
use stellar::value::{ContractValue, UInt256Parts};
use stellar_xdr::curr as xdr;

fn account() -> String {
    stellar_strkey::ed25519::PublicKey([7; 32]).to_string()
}

fn contract() -> String {
    stellar_strkey::Contract([9; 32]).to_string()
}

fn authorization() -> xdr::SorobanAuthorizationEntry {
    xdr::SorobanAuthorizationEntry {
        credentials: xdr::SorobanCredentials::SourceAccount,
        root_invocation: xdr::SorobanAuthorizedInvocation {
            function: xdr::SorobanAuthorizedFunction::ContractFn(xdr::InvokeContractArgs {
                contract_address: xdr::ScAddress::Contract(xdr::ContractId(xdr::Hash([9; 32]))),
                function_name: xdr::ScSymbol::try_from("transact").unwrap(),
                args: xdr::VecM::default(),
            }),
            sub_invocations: xdr::VecM::default(),
        },
    }
}

fn call(function: &str) -> Result<TransactionEnvelope, StateError> {
    StateFetcher::build_invoke_contract_tx_envelope(
        &account(),
        SequenceNumber(5),
        250,
        &contract(),
        function,
        vec![ContractValue::U32(1), ContractValue::Bool(true)],
        vec![authorization()],
    )
}

#[test]
fn account_addresses_are_decoded() {
    assert_eq!(
        StateFetcher::muxed_account_from_g(&account()),
        Ok(MuxedAccount::Ed25519([7; 32]))
    );
    assert_eq!(
        StateFetcher::muxed_account_from_g(
            "GAAAAAAAAAAAAAAAAAAAAAAAAAAAAAAAAAAAAAAAAAAAAAAAAAAAAWHF"
        ),
        Ok(MuxedAccount::Ed25519([0; 32]))
    );
}

#[test]
fn contract_addresses_are_decoded() {
    assert_eq!(
        StateFetcher::contract_scaddress_from_str(&contract()),
        Ok(ScAddress::Contract([9; 32]))
    );
}

#[test]
fn addresses_of_another_sort_are_refused() {
    assert_eq!(
        StateFetcher::muxed_account_from_g(&contract()),
        Err(StateError::InvalidSourceAccount)
    );
    assert_eq!(
        StateFetcher::contract_scaddress_from_str(&account()),
        Err(StateError::InvalidContractId)
    );
    assert_eq!(StateFetcher::muxed_account_from_g(""), Err(StateError::InvalidSourceAccount));
    assert_eq!(
        StateFetcher::contract_scaddress_from_str("CABC"),
        Err(StateError::InvalidContractId)
    );
    let mut garbled = account();
    garbled.pop();
    garbled.push('!');
    assert_eq!(
        StateFetcher::muxed_account_from_g(&garbled),
        Err(StateError::InvalidSourceAccount)
    );
}

#[test]
fn call_is_put_together() {
    let expected = TransactionEnvelope {
        tx: Transaction {
            source_account: MuxedAccount::Ed25519([7; 32]),
            fee: 250,
            seq_num: SequenceNumber(5),
            cond: Preconditions::Absent,
            memo: Memo::Absent,
            operations: vec![Operation {
                source_account: None,
                body: InvokeHostFunctionOp {
                    host_function: InvokeContractArgs {
                        contract_address: ScAddress::Contract([9; 32]),
                        function_name: b"transact".to_vec(),
                        args: vec![ContractValue::U32(1), ContractValue::Bool(true)],
                    },
                    auth: vec![authorization()],
                },
            }],
            ext: TransactionExt::V0,
        },
        signatures: vec![],
    };
    assert_eq!(call("transact"), Ok(expected));
}

#[test]
fn function_names_have_at_most_32_bytes() {
    let longest = "a".repeat(32);
    let envelope = call(&longest).unwrap();
    assert_eq!(
        envelope.tx.operations[0].body.host_function.function_name,
        longest.as_bytes().to_vec()
    );
    assert_eq!(call(&"a".repeat(33)), Err(StateError::InvalidFunctionName));
    // Sixteen characters of two bytes each still fit, seventeen do not.
    let wide = call(&"\u{e9}".repeat(16)).unwrap();
    assert_eq!(wide.tx.operations[0].body.host_function.function_name.len(), 32);
    assert_eq!(call(&"\u{e9}".repeat(17)), Err(StateError::InvalidFunctionName));
}

#[test]
fn call_fails_at_the_first_fault() {
    let build = |source: &str, contract: &str| {
        StateFetcher::build_invoke_contract_tx_envelope(
            source,
            SequenceNumber(0),
            1,
            contract,
            &"a".repeat(40),
            vec![],
            vec![],
        )
    };
    assert_eq!(build("no", "no"), Err(StateError::InvalidSourceAccount));
    assert_eq!(build(&account(), "no"), Err(StateError::InvalidContractId));
    assert_eq!(build(&account(), &contract()), Err(StateError::InvalidFunctionName));
}

#[test]
fn lookup_calls_find_key_with_the_key() {
    let key = Field::try_from_u256(U256 { hi: 3, lo: (5 << 64) + 6 }).unwrap();
    let envelope =
        StateFetcher::build_find_key_simulation_tx(&contract(), &account(), key).unwrap();
    assert_eq!(envelope.tx.fee, 100);
    assert_eq!(envelope.tx.seq_num, SequenceNumber(0));
    let body = &envelope.tx.operations[0].body;
    assert_eq!(body.host_function.function_name, b"find_key".to_vec());
    assert_eq!(
        body.host_function.args,
        vec![ContractValue::U256(UInt256Parts { hi_hi: 0, hi_lo: 3, lo_hi: 5, lo_lo: 6 })]
    );
    assert!(body.auth.is_empty());
}

#[test]
fn lookups_of_different_keys_differ() {
    let lookup = |n: u128| {
        let key = Field::try_from_u256(U256 { hi: 0, lo: n }).unwrap();
        StateFetcher::build_find_key_simulation_tx(&contract(), &account(), key).unwrap()
    };
    assert_eq!(lookup(1), lookup(1));
    assert!(lookup(1) != lookup(2));
    assert!(lookup(1) != lookup(1 << 64));
}

#[test]
fn lookup_refuses_bad_addresses() {
    let key = Field::zero();
    assert_eq!(
        StateFetcher::build_find_key_simulation_tx("no", &account(), key),
        Err(StateError::InvalidContractId)
    );
    assert_eq!(
        StateFetcher::build_find_key_simulation_tx("no", "no", key),
        Err(StateError::InvalidSourceAccount)
    );
}
