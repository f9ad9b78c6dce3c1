//! What holds of the state that is read of the contracts.
use vstd::arithmetic::power2::pow2;
use vstd::prelude::*;

use crate::contract_state::StateFetcher;
use crate::error::{first_of, StateError, ValueKind};
use crate::laws::numbers::{
    bn254_order, is_decimal_text, lemma_decimal, lemma_words_injective, words_number,
};
use crate::types::{
    AspMembership, AspNonMembership, ContractConfig, ContractData, ContractQuery,
    ContractsStateData, PoolInfo,
};
use crate::value::{ContractValue, UInt256Parts, ValueSpec};

verus! {

/// What a contract holds, by key.
pub type Held = Map<Seq<char>, ValueSpec>;

/// The fault of an entry that is to be of one kind: it may be missing, or of
/// another kind.
pub open spec fn entry_fault(
    data: Held,
    key: &'static str,
    contract: String,
    expected: ValueKind,
    fits: spec_fn(ValueSpec) -> bool,
) -> Option<StateError> {
    if !data.dom().contains(key@) {
        Some(StateError::MissingStateKey { key, contract })
    } else if !fits(data[key@]) {
        Some(StateError::UnexpectedValue { expected })
    } else {
        None
    }
}

/// The fault of an entry that is to be an address.
pub open spec fn address_fault(data: Held, key: &'static str, contract: String) -> Option<
    StateError,
> {
    entry_fault(data, key, contract, ValueKind::Address, |v: ValueSpec| v is Address)
}

/// The fault of an entry that is to be a 256-bit number.
pub open spec fn number_fault(data: Held, key: &'static str, contract: String) -> Option<
    StateError,
> {
    entry_fault(data, key, contract, ValueKind::U256, |v: ValueSpec| v is U256)
}

/// A fault that is there under a condition.
pub open spec fn fault_if(condition: bool, error: StateError) -> Option<StateError> {
    if condition {
        Some(error)
    } else {
        None
    }
}

/// Whether a reader fails exactly where there is a fault, and with the first
/// one.
pub open spec fn fails_at_the_first<T>(
    r: Result<T, StateError>,
    faults: Seq<Option<StateError>>,
) -> bool {
    &&& r is Ok <==> forall|i: int| 0 <= i < faults.len() ==> (#[trigger] faults[i]) is None
    &&& r matches Err(e) ==> exists|i: int|
        #![trigger faults[i]]
        0 <= i < faults.len() && faults[i] == Some(e) && forall|j: int|
            0 <= j < i ==> (#[trigger] faults[j]) is None
}

/// A reader that failed with this fault, before which there is none, fails at the
/// first.
proof fn lemma_at<T>(r: Result<T, StateError>, faults: Seq<Option<StateError>>, k: int)
    requires
        0 <= k < faults.len(),
        faults[k] matches Some(e) && r == Err::<T, StateError>(e),
        forall|j: int|
            0 <= j < k ==> (#[trigger] faults[j]) is None,
    ensures
        fails_at_the_first(r, faults),
{
}

/// A reader with three possible faults fails at the first one.
proof fn lemma_three<T>(
    r: Result<T, StateError>,
    f0: Option<StateError>,
    f1: Option<StateError>,
    f2: Option<StateError>,
)
    requires
        ({
            let after2 = first_of(f2, None);
            let after1 = first_of(f1, after2);
            let after0 = first_of(f0, after1);
            &&& r is Ok <==> after0 is None
            &&& r matches Err(e) ==> after0 == Some(e)
        }),
    ensures
        fails_at_the_first(r, seq![
            f0, f1, f2
        ]),
{
    let faults = seq![
        f0, f1, f2
    ];
    assert(faults[0] == f0);
    assert(faults[1] == f1);
    assert(faults[2] == f2);
    if f0 is Some {
        lemma_at(r, faults, 0);
    } else if f1 is Some {
        lemma_at(r, faults, 1);
    } else if f2 is Some {
        lemma_at(r, faults, 2);
    } else {
        assert forall|i: int| 0 <= i < 3 implies (#[trigger] faults[i]) is None by {
            assert(
                i == 0 || i == 1 || i == 2
            );
        }
    }
}

/// A reader with six possible faults fails at the first one.
pub proof fn lemma_six<T>(
    r: Result<T, StateError>,
    f0: Option<StateError>,
    f1: Option<StateError>,
    f2: Option<StateError>,
    f3: Option<StateError>,
    f4: Option<StateError>,
    f5: Option<StateError>,
)
    requires
        ({
            let after5 = first_of(f5, None);
            let after4 = first_of(f4, after5);
            let after3 = first_of(f3, after4);
            let after2 = first_of(f2, after3);
            let after1 = first_of(f1, after2);
            let after0 = first_of(f0, after1);
            &&& r is Ok <==> after0 is None
            &&& r matches Err(e) ==> after0 == Some(e)
        }),
    ensures
        fails_at_the_first(r, seq![
            f0, f1, f2, f3, f4, f5
        ]),
{
    let faults = seq![
        f0, f1, f2, f3, f4, f5
    ];
    assert(faults[0] == f0);
    assert(faults[1] == f1);
    assert(faults[2] == f2);
    assert(faults[3] == f3);
    assert(faults[4] == f4);
    assert(faults[5] == f5);
    if f0 is Some {
        lemma_at(r, faults, 0);
    } else if f1 is Some {
        lemma_at(r, faults, 1);
    } else if f2 is Some {
        lemma_at(r, faults, 2);
    } else if f3 is Some {
        lemma_at(r, faults, 3);
    } else if f4 is Some {
        lemma_at(r, faults, 4);
    } else if f5 is Some {
        lemma_at(r, faults, 5);
    } else {
        assert forall|i: int| 0 <= i < 6 implies (#[trigger] faults[i]) is None by {
            assert(
                i == 0 || i == 1 || i == 2 || i == 3 || i == 4 || i ==
                5
            );
        }
    }
}

/// A reader with twelve possible faults fails at the first one.
proof fn lemma_twelve<T>(
    r: Result<T, StateError>,
    f0: Option<StateError>,
    f1: Option<StateError>,
    f2: Option<StateError>,
    f3: Option<StateError>,
    f4: Option<StateError>,
    f5: Option<StateError>,
    f6: Option<StateError>,
    f7: Option<StateError>,
    f8: Option<StateError>,
    f9: Option<StateError>,
    f10: Option<StateError>,
    f11: Option<StateError>,
)
    requires
        ({
            let after11 = first_of(f11, None);
            let after10 = first_of(f10, after11);
            let after9 = first_of(f9, after10);
            let after8 = first_of(f8, after9);
            let after7 = first_of(f7, after8);
            let after6 = first_of(f6, after7);
            let after5 = first_of(f5, after6);
            let after4 = first_of(f4, after5);
            let after3 = first_of(f3, after4);
            let after2 = first_of(f2, after3);
            let after1 = first_of(f1, after2);
            let after0 = first_of(f0, after1);
            &&& r is Ok <==> after0 is None
            &&& r matches Err(e) ==> after0 == Some(e)
        }),
    ensures
        fails_at_the_first(r, seq![
            f0, f1, f2, f3, f4, f5, f6, f7, f8, f9, f10, f11
        ]),
{
    let faults = seq![
        f0, f1, f2, f3, f4, f5, f6, f7, f8, f9, f10, f11
    ];
    assert(faults[0] == f0);
    assert(faults[1] == f1);
    assert(faults[2] == f2);
    assert(faults[3] == f3);
    assert(faults[4] == f4);
    assert(faults[5] == f5);
    assert(faults[6] == f6);
    assert(faults[7] == f7);
    assert(faults[8] == f8);
    assert(faults[9] == f9);
    assert(faults[10] == f10);
    assert(faults[11] == f11);
    if f0 is Some {
        lemma_at(r, faults, 0);
    } else if f1 is Some {
        lemma_at(r, faults, 1);
    } else if f2 is Some {
        lemma_at(r, faults, 2);
    } else if f3 is Some {
        lemma_at(r, faults, 3);
    } else if f4 is Some {
        lemma_at(r, faults, 4);
    } else if f5 is Some {
        lemma_at(r, faults, 5);
    } else if f6 is Some {
        lemma_at(r, faults, 6);
    } else if f7 is Some {
        lemma_at(r, faults, 7);
    } else if f8 is Some {
        lemma_at(r, faults, 8);
    } else if f9 is Some {
        lemma_at(r, faults, 9);
    } else if f10 is Some {
        lemma_at(r, faults, 10);
    } else if f11 is Some {
        lemma_at(r, faults, 11);
    } else {
        assert forall|i: int| 0 <= i < 12 implies (#[trigger] faults[i]) is None by {
            assert(
                i == 0 || i == 1 || i == 2 || i == 3 || i == 4 || i ==
                5 || i == 6 || i == 7 || i == 8 || i == 9 || i == 10
                || i == 11
            );
        }
    }
}

/// What is put under a key is what is found there, and what is under the other
/// keys stays.
pub proof fn law_data_gives_back_what_was_put(
    before: ContractData,
    after: ContractData,
    key: String,
    val: ContractValue,
    asked: &str,
    was: Option<&ContractValue>,
    is: Option<&ContractValue>,
)
    requires
        after@ == before@.insert(key@, val@),
        call_ensures(ContractData::get, (&before, asked), was),
        call_ensures(ContractData::get, (&after, asked), is),
    ensures
        asked@ == key@ ==> (is matches Some(v) && v@ == val@),
        asked@ != key@ ==> (is is Some <==> was is Some),
        asked@ != key@ ==> (is matches Some(v) ==> v@ == was->0@),
{
}

/// The contracts of a fetcher are those that it was made with.
pub proof fn law_fetcher_keeps_its_contracts(
    config: ContractConfig,
    fetcher: StateFetcher,
    r: &ContractConfig,
)
    requires
        call_ensures(StateFetcher::new, (config,), fetcher),
        call_ensures(StateFetcher::contract_config, (&fetcher,), r),
    ensures
        *r == config,
{
}

/// The pool contract is asked for its nine entries.
pub proof fn law_pool_is_asked(fetcher: StateFetcher, config: &ContractConfig, q: ContractQuery)
    requires
        call_ensures(StateFetcher::contract_config, (&fetcher,), config),
        call_ensures(StateFetcher::pool_query, (&fetcher,), q),
    ensures
        q.contract_id@ == config.pool@,
        q.keys@.len() == 9,
        q.keys@.contains("Admin"),
        q.keys@.contains("Token"),
        q.keys@.contains("Verifier"),
        q.keys@.contains("ASPMembership"),
        q.keys@.contains("ASPNonMembership"),
        q.keys@.contains("Levels"),
        q.keys@.contains("CurrentRootIndex"),
        q.keys@.contains("NextIndex"),
        q.keys@.contains("MaximumDepositAmount"),
        q.indexed_keys@.len() == 0,
{
    assert(q.keys@[0] == "Admin");
    assert(q.keys@[1] == "Token");
    assert(q.keys@[2] == "Verifier");
    assert(q.keys@[3] == "ASPMembership");
    assert(q.keys@[4] == "ASPNonMembership");
    assert(q.keys@[5] == "Levels");
    assert(q.keys@[6] == "CurrentRootIndex");
    assert(q.keys@[7] == "NextIndex");
    assert(q.keys@[8] == "MaximumDepositAmount");
}

/// The pool contract is asked for one root, under its index.
pub proof fn law_pool_is_asked_for_its_root(
    fetcher: StateFetcher,
    config: &ContractConfig,
    index: u32,
    q: ContractQuery,
)
    requires
        call_ensures(StateFetcher::contract_config, (&fetcher,), config),
        call_ensures(StateFetcher::pool_root_query, (&fetcher, index), q),
    ensures
        q.contract_id@ == config.pool@,
        q.keys@.len() == 0,
        q.indexed_keys@.len() == 1,
        q.indexed_keys@[0] == ("Root", index),
{
}

/// The membership contract is asked for its five entries.
pub proof fn law_asp_membership_is_asked(
    fetcher: StateFetcher,
    config: &ContractConfig,
    q: ContractQuery,
)
    requires
        call_ensures(StateFetcher::contract_config, (&fetcher,), config),
        call_ensures(StateFetcher::asp_membership_query, (&fetcher,), q),
    ensures
        q.contract_id@ == config.asp_membership@,
        q.keys@.len() == 5,
        q.keys@.contains("Root"),
        q.keys@.contains("Levels"),
        q.keys@.contains("NextIndex"),
        q.keys@.contains("Admin"),
        q.keys@.contains("AdminInsertOnly"),
        q.indexed_keys@.len() == 0,
{
    assert(q.keys@[0] == "Root");
    assert(q.keys@[1] == "Levels");
    assert(q.keys@[2] == "NextIndex");
    assert(q.keys@[3] == "Admin");
    assert(q.keys@[4] == "AdminInsertOnly");
}

/// The non-membership contract is asked for its two entries.
pub proof fn law_asp_nonmembership_is_asked(
    fetcher: StateFetcher,
    config: &ContractConfig,
    q: ContractQuery,
)
    requires
        call_ensures(StateFetcher::contract_config, (&fetcher,), config),
        call_ensures(StateFetcher::asp_nonmembership_query, (&fetcher,), q),
    ensures
        q.contract_id@ == config.asp_non_membership@,
        q.keys@.len() == 2,
        q.keys@.contains("Root"),
        q.keys@.contains("Admin"),
        q.indexed_keys@.len() == 0,
{
    assert(q.keys@[0] == "Root");
    assert(q.keys@[1] == "Admin");
}

/// The index of the current root is the number that the pool holds, and there is
/// none where the pool holds none.
pub proof fn law_root_index_is_what_the_pool_holds(
    pool_state: ContractData,
    r: Result<Option<u32>, StateError>,
)
    requires
        call_ensures(StateFetcher::pool_root_index, (&pool_state,), r),
    ensures
        !pool_state@.dom().contains("CurrentRootIndex"@) ==> r == Ok::<Option<u32>, StateError>(
            None,
        ),
        pool_state@.dom().contains("CurrentRootIndex"@) ==> (match pool_state@[
            "CurrentRootIndex"@
        ] {
            ValueSpec::U32(index) => r == Ok::<Option<u32>, StateError>(Some(index)),
            _ => r == Err::<Option<u32>, StateError>(
                StateError::UnexpectedValue { expected: ValueKind::U32 },
            ),
        }),
{
}

/// What is reported of the pool is what the pool holds, entry by entry.
#[verifier::spinoff_prover]
pub proof fn law_pool_is_reported_as_it_is(
    fetcher: StateFetcher,
    config: &ContractConfig,
    ledger: u32,
    pool_state: ContractData,
    root_state: ContractData,
    info: PoolInfo,
)
    requires
        call_ensures(StateFetcher::contract_config, (&fetcher,), config),
        call_ensures(
            StateFetcher::pool_contract_state,
            (&fetcher, ledger, &pool_state, &root_state),
            Ok::<PoolInfo, StateError>(info),
        ),
    ensures
        info.ledger == ledger,
        info.contract_id@ == config.pool@,
        info.contract_type@ == "Privacy Pool"@,
        pool_state@["Admin"@] == ValueSpec::Address(info.admin@),
        pool_state@["Token"@] == ValueSpec::Address(info.token@),
        pool_state@["Verifier"@] == ValueSpec::Address(info.verifier@),
        pool_state@["ASPMembership"@] == ValueSpec::Address(info.aspmembership@),
        pool_state@["ASPNonMembership"@] == ValueSpec::Address(info.aspnonmembership@),
        pool_state@["Levels"@] == ValueSpec::U32(info.merkle_levels),
        info.merkle_capacity == pow2(info.merkle_levels as nat),
        pool_state@["NextIndex"@] matches ValueSpec::U64(n) && is_decimal_text(
            info.merkle_next_index@,
            n as int,
        ) && is_decimal_text(info.total_commitments@, n as int),
        pool_state@["MaximumDepositAmount"@] matches ValueSpec::U256(p)
            && info.maximum_deposit_amount.0 == words_number(p),
        match info.merkle_current_root_index {
            Some(index) => {
                &&& pool_state@.dom().contains("CurrentRootIndex"@)
                &&& pool_state@["CurrentRootIndex"@] == ValueSpec::U32(index)
                &&& root_state@["Root"@] matches ValueSpec::U256(p)
                &&& info.merkle_root matches Some(root)
                &&& root@ == words_number(p)
            },
            None => {
                &&& !pool_state@.dom().contains("CurrentRootIndex"@)
                &&& info.merkle_root is None
            },
        },
{
    if let ValueSpec::U64(n) = pool_state@["NextIndex"@] {
        lemma_decimal(n as nat);
    }
}

/// The pool is read exactly where nothing is at fault with it, and the first
/// fault is the one that is told.
#[verifier::spinoff_prover]
pub proof fn law_pool_fails_at_the_first_fault(
    fetcher: StateFetcher,
    config: &ContractConfig,
    ledger: u32,
    pool_state: ContractData,
    root_state: ContractData,
    r: Result<PoolInfo, StateError>,
)
    requires
        call_ensures(StateFetcher::contract_config, (&fetcher,), config),
        call_ensures(
            StateFetcher::pool_contract_state,
            (&fetcher, ledger, &pool_state, &root_state),
            r,
        ),
    ensures
        ({
            let pool = pool_state@;
            let root = root_state@;
            let id = config.pool;
            let indexed = pool.dom().contains("CurrentRootIndex"@);
            fails_at_the_first(
                r,
                seq![
                    fault_if(
                        indexed && !(pool["CurrentRootIndex"@] is U32),
                        StateError::UnexpectedValue { expected: ValueKind::U32 },
                    ),
                    if indexed {
                        number_fault(root, "Root", id)
                    } else {
                        None
                    },
                    entry_fault(pool, "Levels", id, ValueKind::U32, |v: ValueSpec| v is U32),
                    entry_fault(pool, "NextIndex", id, ValueKind::U64, |v: ValueSpec| v is U64),
                    number_fault(pool, "MaximumDepositAmount", id),
                    fault_if(
                        words_number(pool["MaximumDepositAmount"@]->U256_0) > i128::MAX,
                        StateError::DoesNotFitI128 { what: "maximum_deposit_amount" },
                    ),
                    fault_if(
                        indexed && words_number(root["Root"@]->U256_0) >= bn254_order(),
                        StateError::FieldOutOfRange,
                    ),
                    address_fault(pool, "Admin", id),
                    address_fault(pool, "Token", id),
                    address_fault(pool, "Verifier", id),
                    address_fault(pool, "ASPMembership", id),
                    address_fault(pool, "ASPNonMembership", id),
                ],
            )
        }),
{
    let pool = pool_state@;
    let root = root_state@;
    let id = config.pool;
    let indexed = pool.dom().contains("CurrentRootIndex"@);
    lemma_twelve(
        r,
        fault_if(
            indexed && !(pool["CurrentRootIndex"@] is U32),
            StateError::UnexpectedValue { expected: ValueKind::U32 },
        ),
        if indexed {
            number_fault(root, "Root", id)
        } else {
            None
        },
        entry_fault(pool, "Levels", id, ValueKind::U32, |v: ValueSpec| v is U32),
        entry_fault(pool, "NextIndex", id, ValueKind::U64, |v: ValueSpec| v is U64),
        number_fault(pool, "MaximumDepositAmount", id),
        fault_if(
            words_number(pool["MaximumDepositAmount"@]->U256_0) > i128::MAX,
            StateError::DoesNotFitI128 { what: "maximum_deposit_amount" },
        ),
        fault_if(
            indexed && words_number(root["Root"@]->U256_0) >= bn254_order(),
            StateError::FieldOutOfRange,
        ),
        address_fault(pool, "Admin", id),
        address_fault(pool, "Token", id),
        address_fault(pool, "Verifier", id),
        address_fault(pool, "ASPMembership", id),
        address_fault(pool, "ASPNonMembership", id),
    );
}

/// Two pools whose roots differ in any word report different roots, and pools
/// with the same words report the same.
#[verifier::spinoff_prover]
pub proof fn law_pool_roots_are_told_apart(
    fetcher: StateFetcher,
    ledger: u32,
    pool_state: ContractData,
    a: ContractData,
    b: ContractData,
    p: UInt256Parts,
    q: UInt256Parts,
    info_a: PoolInfo,
    info_b: PoolInfo,
)
    requires
        pool_state@.dom().contains("CurrentRootIndex"@),
        a@["Root"@] == ValueSpec::U256(p),
        b@["Root"@] == ValueSpec::U256(q),
        call_ensures(
            StateFetcher::pool_contract_state,
            (&fetcher, ledger, &pool_state, &a),
            Ok::<PoolInfo, StateError>(info_a),
        ),
        call_ensures(
            StateFetcher::pool_contract_state,
            (&fetcher, ledger, &pool_state, &b),
            Ok::<PoolInfo, StateError>(info_b),
        ),
    ensures
        info_a.merkle_root is Some,
        info_a.merkle_root->0@ == words_number(p),
        info_a.merkle_root->0@ == info_b.merkle_root->0@ <==> p == q,
{
    assert(info_a.merkle_root->0@ == words_number(p));
    assert(info_b.merkle_root->0@ == words_number(q));
    if words_number(p) == words_number(q) {
        lemma_words_injective(p, q);
    }
}

/// What is reported of the membership contract is what it holds, entry by entry.
pub proof fn law_asp_membership_is_reported_as_it_is(
    fetcher: StateFetcher,
    config: &ContractConfig,
    ledger: u32,
    data: ContractData,
    info: AspMembership,
)
    requires
        call_ensures(StateFetcher::contract_config, (&fetcher,), config),
        call_ensures(
            StateFetcher::asp_membership_contract_state,
            (&fetcher, ledger, &data),
            Ok::<AspMembership, StateError>(info),
        ),
    ensures
        info.ledger == ledger,
        info.contract_id@ == config.asp_membership@,
        info.contract_type@ == "ASP Membership"@,
        data@["Root"@] matches ValueSpec::U256(p) && info.root@ == words_number(p),
        data@["Levels"@] == ValueSpec::U32(info.levels),
        info.capacity == pow2(info.levels as nat),
        data@["NextIndex"@] matches ValueSpec::U64(n) && is_decimal_text(
            info.next_index@,
            n as int,
        ) && is_decimal_text(info.used_slots@, n as int),
        data@["Admin"@] == ValueSpec::Address(info.admin@),
        data@["AdminInsertOnly"@] == ValueSpec::Bool(info.admin_insert_only),
{
    if let ValueSpec::U64(n) = data@["NextIndex"@] {
        lemma_decimal(n as nat);
    }
}

/// The membership contract is read exactly where nothing is at fault with it, and
/// the first fault is the one that is told.
pub proof fn law_asp_membership_fails_at_the_first_fault(
    fetcher: StateFetcher,
    config: &ContractConfig,
    ledger: u32,
    state: ContractData,
    r: Result<AspMembership, StateError>,
)
    requires
        call_ensures(StateFetcher::contract_config, (&fetcher,), config),
        call_ensures(StateFetcher::asp_membership_contract_state, (&fetcher, ledger, &state), r),
    ensures
        ({
            let data = state@;
            let id = config.asp_membership;
            fails_at_the_first(
                r,
                seq![
                    entry_fault(data, "NextIndex", id, ValueKind::U64, |v: ValueSpec| v is U64),
                    entry_fault(data, "Levels", id, ValueKind::U32, |v: ValueSpec| v is U32),
                    number_fault(data, "Root", id),
                    fault_if(
                        words_number(data["Root"@]->U256_0) >= bn254_order(),
                        StateError::FieldOutOfRange,
                    ),
                    address_fault(data, "Admin", id),
                    entry_fault(
                        data,
                        "AdminInsertOnly",
                        id,
                        ValueKind::Bool,
                        |v: ValueSpec| v is Bool,
                    ),
                ],
            )
        }),
{
    let data = state@;
    let id = config.asp_membership;
    lemma_six(
        r,
        entry_fault(data, "NextIndex", id, ValueKind::U64, |v: ValueSpec| v is U64),
        entry_fault(data, "Levels", id, ValueKind::U32, |v: ValueSpec| v is U32),
        number_fault(data, "Root", id),
        fault_if(
            words_number(data["Root"@]->U256_0) >= bn254_order(),
            StateError::FieldOutOfRange,
        ),
        address_fault(data, "Admin", id),
        entry_fault(data, "AdminInsertOnly", id, ValueKind::Bool, |v: ValueSpec| v is Bool),
    );
}

/// Two membership contracts that differ only in who may insert are reported to
/// differ in that.
pub proof fn law_insert_rights_are_told_apart(
    fetcher: StateFetcher,
    ledger: u32,
    a: ContractData,
    b: ContractData,
    flag: bool,
    info_a: AspMembership,
    info_b: AspMembership,
)
    requires
        a@["AdminInsertOnly"@] == ValueSpec::Bool(flag),
        b@ == a@.insert("AdminInsertOnly"@, ValueSpec::Bool(!flag)),
        call_ensures(
            StateFetcher::asp_membership_contract_state,
            (&fetcher, ledger, &a),
            Ok::<AspMembership, StateError>(info_a),
        ),
        call_ensures(
            StateFetcher::asp_membership_contract_state,
            (&fetcher, ledger, &b),
            Ok::<AspMembership, StateError>(info_b),
        ),
    ensures
        info_a.admin_insert_only == flag,
        info_b.admin_insert_only == !flag,
{
}

/// What is reported of the non-membership contract is what it holds, entry by
/// entry, and it is empty exactly where its root is zero.
pub proof fn law_asp_nonmembership_is_reported_as_it_is(
    fetcher: StateFetcher,
    config: &ContractConfig,
    ledger: u32,
    data: ContractData,
    info: AspNonMembership,
)
    requires
        call_ensures(StateFetcher::contract_config, (&fetcher,), config),
        call_ensures(
            StateFetcher::asp_nonmembership_contract_state,
            (&fetcher, ledger, &data),
            Ok::<AspNonMembership, StateError>(info),
        ),
    ensures
        info.ledger == ledger,
        info.contract_id@ == config.asp_non_membership@,
        info.contract_type@ == "ASP Non-Membership (Sparse Merkle Tree)"@,
        data@["Root"@] matches ValueSpec::U256(p) && info.root@ == words_number(p) && (info.is_empty
            <==> p.hi_hi == 0 && p.hi_lo == 0 && p.lo_hi == 0 && p.lo_lo == 0),
        data@["Admin"@] == ValueSpec::Address(info.admin@),
{
}

/// The non-membership contract is read exactly where nothing is at fault with it,
/// and the first fault is the one that is told.
pub proof fn law_asp_nonmembership_fails_at_the_first_fault(
    fetcher: StateFetcher,
    config: &ContractConfig,
    ledger: u32,
    state: ContractData,
    r: Result<AspNonMembership, StateError>,
)
    requires
        call_ensures(StateFetcher::contract_config, (&fetcher,), config),
        call_ensures(StateFetcher::asp_nonmembership_contract_state, (&fetcher, ledger, &state), r),
    ensures
        fails_at_the_first(
            r,
            seq![
                number_fault(state@, "Root", config.asp_non_membership),
                fault_if(
                    words_number(state@["Root"@]->U256_0) >= bn254_order(),
                    StateError::FieldOutOfRange,
                ),
                address_fault(state@, "Admin", config.asp_non_membership),
            ],
        ),
{
    lemma_three(
        r,
        number_fault(state@, "Root", config.asp_non_membership),
        fault_if(
            words_number(state@["Root"@]->U256_0) >= bn254_order(),
            StateError::FieldOutOfRange,
        ),
        address_fault(state@, "Admin", config.asp_non_membership),
    );
}

/// Reading the pool is said to overflow exactly where it gets as far as a tree of
/// 64 levels or more: the index and the root are read before.
pub proof fn law_pool_overflow_is_told(
    fetcher: StateFetcher,
    pool_state: ContractData,
    root_state: ContractData,
    r: bool,
)
    requires
        call_ensures(
            StateFetcher::pool_capacity_overflows,
            (&fetcher, &pool_state, &root_state),
            r,
        ),
    ensures
        r <==> {
            &&& pool_state@.dom().contains("CurrentRootIndex"@) ==> {
                &&& pool_state@["CurrentRootIndex"@] is U32
                &&& root_state@.dom().contains("Root"@)
                &&& root_state@["Root"@] is U256
            }
            &&& pool_state@.dom().contains("Levels"@)
            &&& pool_state@["Levels"@] matches ValueSpec::U32(levels) && levels >= 64
        },
{
}

/// Reading the membership contract is said to overflow exactly where it gets as
/// far as a tree of 64 levels or more: the next index is read before.
pub proof fn law_asp_membership_overflow_is_told(
    fetcher: StateFetcher,
    data: ContractData,
    r: bool,
)
    requires
        call_ensures(StateFetcher::asp_membership_capacity_overflows, (&fetcher, &data), r),
    ensures
        r <==> {
            &&& data@.dom().contains("NextIndex"@)
            &&& data@["NextIndex"@] is U64
            &&& data@.dom().contains("Levels"@)
            &&& data@["Levels"@] matches ValueSpec::U32(levels) && levels >= 64
        },
{
}

/// The states of all contracts are put together where all three were read;
/// otherwise one of the failures is told, and the first one.
pub proof fn law_all_contracts_are_put_together<E>(
    fetcher: StateFetcher,
    pool: Result<PoolInfo, E>,
    membership: Result<AspMembership, E>,
    nonmembership: Result<AspNonMembership, E>,
    r: Result<ContractsStateData, E>,
)
    requires
        call_ensures(
            StateFetcher::all_contracts_data::<E>,
            (&fetcher, pool, membership, nonmembership),
            r,
        ),
    ensures
        r is Ok <==> pool is Ok && membership is Ok && nonmembership is Ok,
        r matches Ok(data) ==> data.network@ == "testnet"@ && data.pool == pool->Ok_0
            && data.asp_membership == membership->Ok_0 && data.asp_non_membership
            == nonmembership->Ok_0,
        pool matches Err(e) ==> r == Err::<ContractsStateData, E>(e),
        pool is Ok ==> (membership matches Err(e) ==> r == Err::<ContractsStateData, E>(e)),
        pool is Ok && membership is Ok ==> (nonmembership matches Err(e) ==> r == Err::<
            ContractsStateData,
            E,
        >(e)),
{
}

} // verus!
