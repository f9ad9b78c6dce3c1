use stellar::contract_state::StateFetcher;
use stellar::error::{StateError, ValueKind};
use stellar::field::Field;
use stellar::types::{ContractConfig, ContractData, ExtAmount, PoolInfo};
use stellar::uint::U256;
use stellar::value::{ContractValue, UInt256Parts};

fn fetcher() -> StateFetcher {
    StateFetcher::new(ContractConfig {
        pool: "CPOOL".to_string(),
        asp_membership: "CMEMBER".to_string(),
        asp_non_membership: "CNONMEMBER".to_string(),
    })
}

fn number(n: u64) -> ContractValue {
    ContractValue::U256(UInt256Parts { hi_hi: 0, hi_lo: 0, lo_hi: 0, lo_lo: n })
}

fn address(text: &str) -> ContractValue {
    ContractValue::Address(text.to_string())
}

fn too_large() -> ContractValue {
    ContractValue::U256(UInt256Parts { hi_hi: u64::MAX, hi_lo: 0, lo_hi: 0, lo_lo: 0 })
}

fn element(n: u128) -> Field {
    Field::try_from_u256(U256 { hi: 0, lo: n }).unwrap()
}

/// The data of a pool without the entries under `without`.
fn pool_data(without: &[&str]) -> ContractData {
    let entries = vec![
        ("Admin", address("GADMIN")),
        ("Token", address("CTOKEN")),
        ("Verifier", address("CVERIFIER")),
        ("ASPMembership", address("CMEMBER")),
        ("ASPNonMembership", address("CNONMEMBER")),
        ("Levels", ContractValue::U32(10)),
        ("CurrentRootIndex", ContractValue::U32(4)),
        ("NextIndex", ContractValue::U64(12)),
        ("MaximumDepositAmount", number(1_000_000)),
    ];
    let mut data = ContractData::new();
    for (key, val) in entries {
        if !without.contains(&key) {
            data.insert(key.to_string(), val);
        }
    }
    data
}

fn root_data(val: ContractValue) -> ContractData {
    let mut data = ContractData::new();
    data.insert("Root".to_string(), val);
    data
}

fn membership_data(without: &[&str]) -> ContractData {
    let entries = vec![
        ("Root", number(77)),
        ("Levels", ContractValue::U32(3)),
        ("NextIndex", ContractValue::U64(5)),
        ("Admin", address("GADMIN")),
        ("AdminInsertOnly", ContractValue::Bool(true)),
    ];
    let mut data = ContractData::new();
    for (key, val) in entries {
        if !without.contains(&key) {
            data.insert(key.to_string(), val);
        }
    }
    data
}

fn missing(key: &'static str, contract: &str) -> StateError {
    StateError::MissingStateKey { key, contract: contract.to_string() }
}

fn read_pool(data: &ContractData, root: &ContractData) -> Result<PoolInfo, StateError> {
    let fetcher = fetcher();
    assert!(!fetcher.pool_capacity_overflows(data, root));
    fetcher.pool_contract_state(900, data, root)
}

#[test]
fn config_is_kept() {
    assert_eq!(fetcher().contract_config().pool, "CPOOL");
    assert_eq!(fetcher().contract_config().asp_membership, "CMEMBER");
    assert_eq!(fetcher().contract_config().asp_non_membership, "CNONMEMBER");
}

#[test]
fn data_keeps_the_last_value_under_a_key() {
    let mut data = ContractData::new();
    assert_eq!(data.get("a"), None);
    data.insert("a".to_string(), ContractValue::U32(1));
    data.insert("b".to_string(), ContractValue::U32(2));
    data.insert("a".to_string(), ContractValue::U32(3));
    assert_eq!(data.get("a"), Some(&ContractValue::U32(3)));
    assert_eq!(data.get("b"), Some(&ContractValue::U32(2)));
}

#[test]
fn queries_name_the_contract_and_the_keys() {
    let fetcher = fetcher();
    let pool = fetcher.pool_query();
    assert_eq!(pool.contract_id, "CPOOL");
    assert_eq!(
        pool.keys,
        vec![
            "Admin",
            "Token",
            "Verifier",
            "ASPMembership",
            "ASPNonMembership",
            "Levels",
            "CurrentRootIndex",
            "NextIndex",
            "MaximumDepositAmount",
        ]
    );
    assert!(pool.indexed_keys.is_empty());
    let root = fetcher.pool_root_query(4);
    assert_eq!(root.contract_id, "CPOOL");
    assert!(root.keys.is_empty());
    assert_eq!(root.indexed_keys, vec![("Root", 4)]);
    let membership = fetcher.asp_membership_query();
    assert_eq!(membership.contract_id, "CMEMBER");
    assert_eq!(
        membership.keys,
        vec!["Root", "Levels", "NextIndex", "Admin", "AdminInsertOnly"]
    );
    assert!(membership.indexed_keys.is_empty());
    let nonmembership = fetcher.asp_nonmembership_query();
    assert_eq!(nonmembership.contract_id, "CNONMEMBER");
    assert_eq!(nonmembership.keys, vec!["Root", "Admin"]);
    assert!(nonmembership.indexed_keys.is_empty());
}

#[test]
fn pool_with_a_root_is_read() {
    let info = read_pool(&pool_data(&[]), &root_data(number(99))).unwrap();
    assert_eq!(
        info,
        PoolInfo {
            ledger: 900,
            contract_id: "CPOOL".to_string(),
            contract_type: "Privacy Pool".to_string(),
            admin: "GADMIN".to_string(),
            token: "CTOKEN".to_string(),
            verifier: "CVERIFIER".to_string(),
            aspmembership: "CMEMBER".to_string(),
            aspnonmembership: "CNONMEMBER".to_string(),
            merkle_levels: 10,
            merkle_current_root_index: Some(4),
            merkle_next_index: "12".to_string(),
            maximum_deposit_amount: ExtAmount(1_000_000),
            merkle_root: Some(element(99)),
            merkle_capacity: 1024,
            total_commitments: "12".to_string(),
        }
    );
}

#[test]
fn pool_without_an_index_has_no_root() {
    let data = pool_data(&["CurrentRootIndex"]);
    let info = read_pool(&data, &ContractData::new()).unwrap();
    assert_eq!(info.merkle_current_root_index, None);
    assert_eq!(info.merkle_root, None);
    assert_eq!(read_pool(&data, &root_data(number(1))).unwrap(), info);
}

#[test]
fn pool_reads_nothing_that_was_not_asked_for() {
    let mut data = pool_data(&[]);
    data.insert("Paused".to_string(), ContractValue::Bool(true));
    let root = root_data(number(99));
    assert_eq!(read_pool(&data, &root), read_pool(&pool_data(&[]), &root));
}

#[test]
fn pool_names_the_missing_key() {
    let keys = [
        "Levels",
        "NextIndex",
        "MaximumDepositAmount",
        "Admin",
        "Token",
        "Verifier",
        "ASPMembership",
        "ASPNonMembership",
    ];
    for key in keys {
        let data = pool_data(&[key]);
        assert_eq!(read_pool(&data, &root_data(number(1))), Err(missing(key, "CPOOL")));
    }
    let no_root = ContractData::new();
    assert_eq!(read_pool(&pool_data(&[]), &no_root), Err(missing("Root", "CPOOL")));
}

#[test]
fn pool_fails_at_the_first_fault() {
    let data = pool_data(&["Levels", "NextIndex", "Token"]);
    assert_eq!(read_pool(&data, &ContractData::new()), Err(missing("Root", "CPOOL")));
    assert_eq!(read_pool(&data, &root_data(number(1))), Err(missing("Levels", "CPOOL")));
    let data = pool_data(&["Token"]);
    assert_eq!(read_pool(&data, &root_data(too_large())), Err(StateError::FieldOutOfRange));
}

#[test]
fn pool_index_of_another_kind_is_refused() {
    let mut data = pool_data(&[]);
    data.insert("CurrentRootIndex".to_string(), ContractValue::U64(4));
    assert_eq!(
        StateFetcher::pool_root_index(&data),
        Err(StateError::UnexpectedValue { expected: ValueKind::U32 })
    );
    assert_eq!(
        read_pool(&data, &ContractData::new()),
        Err(StateError::UnexpectedValue { expected: ValueKind::U32 })
    );
    assert_eq!(StateFetcher::pool_root_index(&pool_data(&[])), Ok(Some(4)));
    assert_eq!(StateFetcher::pool_root_index(&pool_data(&["CurrentRootIndex"])), Ok(None));
}

#[test]
fn pool_limit_must_fit_an_amount() {
    let mut data = pool_data(&[]);
    data.insert("MaximumDepositAmount".to_string(), too_large());
    assert_eq!(
        read_pool(&data, &root_data(number(1))),
        Err(StateError::DoesNotFitI128 { what: "maximum_deposit_amount" })
    );
}

#[test]
fn pool_capacity_is_checked_only_where_it_is_reached() {
    let fetcher = fetcher();
    let mut data = pool_data(&[]);
    data.insert("Levels".to_string(), ContractValue::U32(64));
    assert!(fetcher.pool_capacity_overflows(&data, &root_data(number(1))));
    assert!(!fetcher.pool_capacity_overflows(&data, &ContractData::new()));
    assert!(!fetcher.pool_capacity_overflows(&data, &root_data(ContractValue::U32(1))));
    assert_eq!(
        fetcher.pool_contract_state(1, &data, &ContractData::new()),
        Err(missing("Root", "CPOOL"))
    );
    let mut data = pool_data(&["CurrentRootIndex"]);
    data.insert("Levels".to_string(), ContractValue::U32(64));
    assert!(fetcher.pool_capacity_overflows(&data, &ContractData::new()));
    let mut data = pool_data(&[]);
    data.insert("Levels".to_string(), ContractValue::U32(63));
    let root = root_data(number(1));
    assert!(!fetcher.pool_capacity_overflows(&data, &root));
    let info = fetcher.pool_contract_state(1, &data, &root).unwrap();
    assert_eq!(info.merkle_capacity, 1 << 63);
}

#[test]
fn membership_is_read() {
    let info = fetcher().asp_membership_contract_state(901, &membership_data(&[])).unwrap();
    assert_eq!(info.ledger, 901);
    assert_eq!(info.contract_id, "CMEMBER");
    assert_eq!(info.contract_type, "ASP Membership");
    assert_eq!(info.root, element(77));
    assert_eq!(info.levels, 3);
    assert_eq!(info.next_index, "5");
    assert_eq!(info.admin, "GADMIN");
    assert!(info.admin_insert_only);
    assert_eq!(info.capacity, 8);
    assert_eq!(info.used_slots, info.next_index);
}

#[test]
fn membership_names_the_missing_key() {
    let fetcher = fetcher();
    for key in ["NextIndex", "Levels", "Root", "Admin", "AdminInsertOnly"] {
        assert_eq!(
            fetcher.asp_membership_contract_state(1, &membership_data(&[key])),
            Err(missing(key, "CMEMBER"))
        );
    }
    assert_eq!(
        fetcher.asp_membership_contract_state(1, &membership_data(&["Root", "NextIndex"])),
        Err(missing("NextIndex", "CMEMBER"))
    );
}

#[test]
fn membership_refuses_values_of_another_kind() {
    let mut data = membership_data(&[]);
    data.insert("AdminInsertOnly".to_string(), ContractValue::U32(1));
    assert_eq!(
        fetcher().asp_membership_contract_state(1, &data),
        Err(StateError::UnexpectedValue { expected: ValueKind::Bool })
    );
    data.insert("Root".to_string(), too_large());
    assert_eq!(
        fetcher().asp_membership_contract_state(1, &data),
        Err(StateError::FieldOutOfRange)
    );
}

#[test]
fn membership_capacity_is_checked_only_where_it_is_reached() {
    let fetcher = fetcher();
    let mut data = membership_data(&[]);
    assert!(!fetcher.asp_membership_capacity_overflows(&data));
    data.insert("Levels".to_string(), ContractValue::U32(64));
    assert!(fetcher.asp_membership_capacity_overflows(&data));
    let mut data = membership_data(&["NextIndex"]);
    data.insert("Levels".to_string(), ContractValue::U32(64));
    assert!(!fetcher.asp_membership_capacity_overflows(&data));
    assert_eq!(
        fetcher.asp_membership_contract_state(1, &data),
        Err(missing("NextIndex", "CMEMBER"))
    );
}

#[test]
fn nonmembership_is_empty_when_its_root_is_zero() {
    let fetcher = fetcher();
    let mut data = root_data(number(0));
    data.insert("Admin".to_string(), address("GADMIN"));
    let info = fetcher.asp_nonmembership_contract_state(902, &data).unwrap();
    assert_eq!(info.ledger, 902);
    assert_eq!(info.contract_id, "CNONMEMBER");
    assert_eq!(info.contract_type, "ASP Non-Membership (Sparse Merkle Tree)");
    assert_eq!(info.admin, "GADMIN");
    assert!(info.is_empty);
    assert!(info.root.is_zero());
    data.insert("Root".to_string(), number(6));
    let info = fetcher.asp_nonmembership_contract_state(902, &data).unwrap();
    assert!(!info.is_empty);
    assert_eq!(info.root, element(6));
}

#[test]
fn nonmembership_reports_faults_in_order() {
    let fetcher = fetcher();
    assert_eq!(
        fetcher.asp_nonmembership_contract_state(1, &ContractData::new()),
        Err(missing("Root", "CNONMEMBER"))
    );
    assert_eq!(
        fetcher.asp_nonmembership_contract_state(1, &root_data(ContractValue::Bool(true))),
        Err(StateError::UnexpectedValue { expected: ValueKind::U256 })
    );
    assert_eq!(
        fetcher.asp_nonmembership_contract_state(1, &root_data(too_large())),
        Err(StateError::FieldOutOfRange)
    );
    assert_eq!(
        fetcher.asp_nonmembership_contract_state(1, &root_data(number(1))),
        Err(missing("Admin", "CNONMEMBER"))
    );
}

#[test]
fn all_states_are_put_together() {
    let fetcher = fetcher();
    let pool = read_pool(&pool_data(&[]), &root_data(number(99))).unwrap();
    let membership = fetcher.asp_membership_contract_state(901, &membership_data(&[])).unwrap();
    let mut data = root_data(number(0));
    data.insert("Admin".to_string(), address("GADMIN"));
    let nonmembership = fetcher.asp_nonmembership_contract_state(902, &data).unwrap();
    let all = fetcher
        .all_contracts_data::<StateError>(Ok(pool), Ok(membership), Ok(nonmembership))
        .unwrap();
    assert_eq!(all.network, "testnet");
    assert_eq!(all.pool.ledger, 900);
    assert_eq!(all.asp_membership.ledger, 901);
    assert_eq!(all.asp_non_membership.ledger, 902);
}

#[test]
fn one_failed_reader_fails_them_all() {
    let fetcher = fetcher();
    let pool = || read_pool(&pool_data(&[]), &root_data(number(99)));
    let no_pool = || read_pool(&pool_data(&["Levels"]), &root_data(number(99)));
    let membership = || fetcher.asp_membership_contract_state(1, &membership_data(&[]));
    let no_membership = || fetcher.asp_membership_contract_state(1, &membership_data(&["Root"]));
    let nonmembership = || {
        let mut data = root_data(number(0));
        data.insert("Admin".to_string(), address("GADMIN"));
        fetcher.asp_nonmembership_contract_state(1, &data)
    };
    let no_nonmembership =
        || fetcher.asp_nonmembership_contract_state(1, &root_data(number(0)));
    assert!(fetcher.all_contracts_data(pool(), membership(), nonmembership()).is_ok());
    assert_eq!(
        fetcher.all_contracts_data(no_pool(), membership(), nonmembership()),
        Err(missing("Levels", "CPOOL"))
    );
    assert_eq!(
        fetcher.all_contracts_data(pool(), no_membership(), no_nonmembership()),
        Err(missing("Root", "CMEMBER"))
    );
    assert_eq!(
        fetcher.all_contracts_data(pool(), membership(), no_nonmembership()),
        Err(missing("Admin", "CNONMEMBER"))
    );
    assert_eq!(
        fetcher.all_contracts_data(no_pool(), no_membership(), no_nonmembership()),
        Err(missing("Levels", "CPOOL"))
    );
}
