//! The state of the deployed contracts.
use vstd::arithmetic::power2::{lemma_pow2_unfold, pow2};
use vstd::prelude::*;

use crate::conversions::{
    kind_error, parts_nat, scval_to_address_string, scval_to_bool, scval_to_u256, scval_to_u32,
    scval_to_u64,
};
use crate::decimal::{decimal, to_decimal};
use crate::error::{first_of, StateError, ValueKind};
use crate::field::{range_error, Field};
use crate::types::{
    AspMembership, AspNonMembership, ContractConfig, ContractData, ContractQuery,
    ContractsStateData, ExtAmount, PoolInfo,
};
use crate::uint::U256;
use crate::value::{ContractValue, ValueSpec};

verus! {

/// Reads the state of the contracts of one deployment.
pub struct StateFetcher {
    config: ContractConfig,
}

/// The failure of reading the entry under `key` as a value of one kind, if it
/// fails.
pub open spec fn read_error(
    data: Map<Seq<char>, ValueSpec>,
    key: &'static str,
    contract: String,
    kind: ValueKind,
) -> Option<StateError> {
    if data.contains_key(key@) {
        kind_error(data[key@], kind)
    } else {
        Some(StateError::MissingStateKey { key, contract })
    }
}

/// The number under `key`.
pub open spec fn number_at(data: Map<Seq<char>, ValueSpec>, key: Seq<char>) -> nat {
    parts_nat(data[key]->U256_0)
}

/// Whether a tree with the number of levels under "Levels" has more leaves than
/// a `u64` can count.
pub open spec fn levels_overflow(data: Map<Seq<char>, ValueSpec>) -> bool {
    data.contains_key("Levels"@) && (data["Levels"@] matches ValueSpec::U32(levels) && levels >= 64)
}

/// The failure of reading the index of the current root of the pool, if it
/// fails. A pool without an index has no root yet.
pub open spec fn root_index_error(pool_state: Map<Seq<char>, ValueSpec>) -> Option<StateError> {
    if pool_state.contains_key("CurrentRootIndex"@) {
        kind_error(pool_state["CurrentRootIndex"@], ValueKind::U32)
    } else {
        None
    }
}

/// The index of the current root of the pool, if the pool has one.
pub open spec fn root_index(pool_state: Map<Seq<char>, ValueSpec>) -> Option<u32> {
    if pool_state.contains_key("CurrentRootIndex"@) {
        Some(pool_state["CurrentRootIndex"@]->U32_0)
    } else {
        None
    }
}

/// The failure of reading the current root of the pool, if it fails. Without an
/// index there is no root to read.
pub open spec fn pool_root_error(
    pool_state: Map<Seq<char>, ValueSpec>,
    root_state: Map<Seq<char>, ValueSpec>,
    contract: String,
) -> Option<StateError> {
    first_of(
        root_index_error(pool_state),
        if root_index(pool_state) is Some {
            read_error(root_state, "Root", contract, ValueKind::U256)
        } else {
            None
        },
    )
}

/// Whether reading the state of the pool comes to a tree with more leaves than
/// a `u64` can count.
pub open spec fn pool_overflows(
    pool_state: Map<Seq<char>, ValueSpec>,
    root_state: Map<Seq<char>, ValueSpec>,
    contract: String,
) -> bool {
    pool_root_error(pool_state, root_state, contract) is None && levels_overflow(pool_state)
}

/// The failure of taking a number as an amount, if it fails.
pub open spec fn amount_error(n: nat, what: &'static str) -> Option<StateError> {
    if n <= i128::MAX {
        None
    } else {
        Some(StateError::DoesNotFitI128 { what })
    }
}

/// The failure of reading the state of the pool, if it fails.
pub open spec fn pool_error(
    pool_state: Map<Seq<char>, ValueSpec>,
    root_state: Map<Seq<char>, ValueSpec>,
    contract: String,
) -> Option<StateError> {
    let at = |key: &'static str, kind: ValueKind| read_error(pool_state, key, contract, kind);
    first_of(
        pool_root_error(pool_state, root_state, contract),
        first_of(
            at("Levels", ValueKind::U32),
            first_of(
                at("NextIndex", ValueKind::U64),
                first_of(
                    at("MaximumDepositAmount", ValueKind::U256),
                    first_of(
                        amount_error(
                            number_at(pool_state, "MaximumDepositAmount"@),
                            "maximum_deposit_amount",
                        ),
                        first_of(
                            if root_index(pool_state) is Some {
                                range_error(number_at(root_state, "Root"@))
                            } else {
                                None
                            },
                            first_of(
                                at("Admin", ValueKind::Address),
                                first_of(
                                    at("Token", ValueKind::Address),
                                    first_of(
                                        at("Verifier", ValueKind::Address),
                                        first_of(
                                            at("ASPMembership", ValueKind::Address),
                                            at("ASPNonMembership", ValueKind::Address),
                                        ),
                                    ),
                                ),
                            ),
                        ),
                    ),
                ),
            ),
        ),
    )
}

/// Whether `info` is what the state of the pool says.
pub open spec fn is_pool_info(
    info: PoolInfo,
    ledger: u32,
    contract: String,
    pool_state: Map<Seq<char>, ValueSpec>,
    root_state: Map<Seq<char>, ValueSpec>,
) -> bool {
    &&& info.ledger == ledger
    &&& info.contract_id == contract
    &&& info.contract_type@ == "Privacy Pool"@
    &&& pool_state["Admin"@] == ValueSpec::Address(info.admin@)
    &&& pool_state["Token"@] == ValueSpec::Address(info.token@)
    &&& pool_state["Verifier"@] == ValueSpec::Address(info.verifier@)
    &&& pool_state["ASPMembership"@] == ValueSpec::Address(info.aspmembership@)
    &&& pool_state["ASPNonMembership"@] == ValueSpec::Address(info.aspnonmembership@)
    &&& pool_state["Levels"@] == ValueSpec::U32(info.merkle_levels)
    &&& info.merkle_current_root_index == root_index(pool_state)
    &&& info.merkle_next_index@ == decimal(pool_state["NextIndex"@]->U64_0 as nat)
    &&& info.maximum_deposit_amount.0 == number_at(pool_state, "MaximumDepositAmount"@)
    &&& match info.merkle_root {
        Some(root) => root_index(pool_state) is Some && root@ == number_at(root_state, "Root"@),
        None => root_index(pool_state) is None,
    }
    &&& info.merkle_capacity == pow2(info.merkle_levels as nat)
    &&& info.total_commitments@ == decimal(pool_state["NextIndex"@]->U64_0 as nat)
}

/// Whether reading the state of the membership contract comes to a tree with
/// more leaves than a `u64` can count.
pub open spec fn asp_membership_overflows(
    data: Map<Seq<char>, ValueSpec>,
    contract: String,
) -> bool {
    read_error(data, "NextIndex", contract, ValueKind::U64) is None && levels_overflow(data)
}

/// The failure of reading the state of the membership contract, if it fails.
pub open spec fn asp_membership_error(
    data: Map<Seq<char>, ValueSpec>,
    contract: String,
) -> Option<StateError> {
    let at = |key: &'static str, kind: ValueKind| read_error(data, key, contract, kind);
    first_of(
        at("NextIndex", ValueKind::U64),
        first_of(
            at("Levels", ValueKind::U32),
            first_of(
                at("Root", ValueKind::U256),
                first_of(
                    range_error(number_at(data, "Root"@)),
                    first_of(
                        at("Admin", ValueKind::Address),
                        at("AdminInsertOnly", ValueKind::Bool),
                    ),
                ),
            ),
        ),
    )
}

/// Whether `info` is what the state of the membership contract says.
pub open spec fn is_asp_membership(
    info: AspMembership,
    ledger: u32,
    contract: String,
    data: Map<Seq<char>, ValueSpec>,
) -> bool {
    &&& info.ledger == ledger
    &&& info.contract_id == contract
    &&& info.contract_type@ == "ASP Membership"@
    &&& info.root@ == number_at(data, "Root"@)
    &&& data["Levels"@] == ValueSpec::U32(info.levels)
    &&& info.next_index@ == decimal(data["NextIndex"@]->U64_0 as nat)
    &&& data["Admin"@] == ValueSpec::Address(info.admin@)
    &&& data["AdminInsertOnly"@] == ValueSpec::Bool(info.admin_insert_only)
    &&& info.capacity == pow2(info.levels as nat)
    &&& info.used_slots@ == decimal(data["NextIndex"@]->U64_0 as nat)
}

/// The failure of reading the state of the non-membership contract, if it
/// fails.
pub open spec fn asp_nonmembership_error(
    data: Map<Seq<char>, ValueSpec>,
    contract: String,
) -> Option<StateError> {
    first_of(
        read_error(data, "Root", contract, ValueKind::U256),
        first_of(
            range_error(number_at(data, "Root"@)),
            read_error(data, "Admin", contract, ValueKind::Address),
        ),
    )
}

/// Whether `info` is what the state of the non-membership contract says.
pub open spec fn is_asp_nonmembership(
    info: AspNonMembership,
    ledger: u32,
    contract: String,
    data: Map<Seq<char>, ValueSpec>,
) -> bool {
    &&& info.ledger == ledger
    &&& info.contract_id == contract
    &&& info.contract_type@ == "ASP Non-Membership (Sparse Merkle Tree)"@
    &&& info.root@ == number_at(data, "Root"@)
    &&& info.is_empty == (number_at(data, "Root"@) == 0)
    &&& data["Admin"@] == ValueSpec::Address(info.admin@)
}

/// The entry under `key`.
fn get_state<'a>(data: &'a ContractData, key: &'static str, contract: &String) -> (r: Result<
    &'a ContractValue,
    StateError,
>)
    ensures
        match r {
            Ok(v) => data@.contains_key(key@) && data@[key@] == v@,
            Err(e) => !data@.contains_key(key@) && e == (StateError::MissingStateKey {
                key,
                contract: *contract,
            }),
        },
{
    match data.get(key) {
        Some(v) => Ok(v),
        None => Err(StateError::MissingStateKey { key, contract: contract.clone() }),
    }
}

/// The address under `key`.
fn address_at(data: &ContractData, key: &'static str, contract: &String) -> (r: Result<
    String,
    StateError,
>)
    ensures
        match r {
            Ok(a) => data@.contains_key(key@) && data@[key@] == ValueSpec::Address(a@),
            Err(e) => read_error(data@, key, *contract, ValueKind::Address) == Some(e),
        },
{
    scval_to_address_string(get_state(data, key, contract)?)
}

/// The number of leaves of a binary tree with this many levels.
pub fn tree_capacity(levels: u32) -> (r: u64)
    requires
        levels < 64,
    ensures
        r == pow2(levels as nat),
{
    let mut capacity: u64 = 1;
    let mut i: u32 = 0;
    proof {
        vstd::arithmetic::power2::lemma2_to64();
    }
    while i < levels
        invariant
            i <= levels < 64,
            capacity == pow2(i as nat),
        decreases levels - i,
    {
        proof {
            lemma_pow2_unfold((i + 1) as nat);
            vstd::bits::lemma_u64_pow2_no_overflow((i + 1) as nat);
        }
        capacity = capacity * 2;
        i = i + 1;
    }
    capacity
}

impl StateFetcher {
    /// The contracts whose state is read.
    pub closed spec fn config(&self) -> ContractConfig {
        self.config
    }

    /// A reader of the state of these contracts.
    pub fn new(config: ContractConfig) -> (r: StateFetcher)
        ensures
            r.config() == config,
    {
        StateFetcher { config }
    }

    /// The contracts whose state is read.
    pub fn contract_config(&self) -> (r: &ContractConfig)
        ensures
            *r == self.config(),
    {
        &self.config
    }

    /// Takes a 256-bit number as a signed 128-bit one. `what` names the number
    /// in the error.
    pub fn u256_to_i128_checked(v: U256, what: &'static str) -> (r: Result<i128, StateError>)
        ensures
            match r {
                Ok(n) => n == v@ && amount_error(v@, what) is None,
                Err(e) => amount_error(v@, what) == Some(e),
            },
    {
        if v.hi != 0 || v.lo > i128::MAX as u128 {
            return Err(StateError::DoesNotFitI128 { what });
        }
        Ok(v.lo as i128)
    }

    /// What to ask of the pool contract.
    pub fn pool_query(&self) -> (r: ContractQuery)
        ensures
            r.contract_id == self.config().pool,
            r.keys@ == seq![
                "Admin",
                "Token",
                "Verifier",
                "ASPMembership",
                "ASPNonMembership",
                "Levels",
                "CurrentRootIndex",
                "NextIndex",
                "MaximumDepositAmount",
            ],
            r.indexed_keys@ == Seq::<(&'static str, u32)>::empty(),
    {
        ContractQuery {
            contract_id: self.config.pool.clone(),
            keys: vec![
                "Admin",
                "Token",
                "Verifier",
                "ASPMembership",
                "ASPNonMembership",
                "Levels",
                "CurrentRootIndex",
                "NextIndex",
                "MaximumDepositAmount",
            ],
            indexed_keys: Vec::new(),
        }
    }

    /// The index of the current root of the pool, if the pool has one: the root
    /// is then to be asked for under it.
    pub fn pool_root_index(pool_state: &ContractData) -> (r: Result<Option<u32>, StateError>)
        ensures
            match r {
                Ok(index) => root_index_error(pool_state@) is None && index == root_index(
                    pool_state@,
                ),
                Err(e) => root_index_error(pool_state@) == Some(e),
            },
    {
        match pool_state.get("CurrentRootIndex") {
            Some(v) => Ok(Some(scval_to_u32(v)?)),
            None => Ok(None),
        }
    }

    /// What to ask of the pool contract for the root with this index.
    pub fn pool_root_query(&self, index: u32) -> (r: ContractQuery)
        ensures
            r.contract_id == self.config().pool,
            r.keys@ == Seq::<&'static str>::empty(),
            r.indexed_keys@ == seq![("Root", index)],
    {
        ContractQuery {
            contract_id: self.config.pool.clone(),
            keys: Vec::new(),
            indexed_keys: vec![("Root", index)],
        }
    }

    /// Whether reading this state of the pool would come to a tree with more
    /// leaves than a `u64` can count.
    pub fn pool_capacity_overflows(
        &self,
        pool_state: &ContractData,
        root_state: &ContractData,
    ) -> (r: bool)
        ensures
            r == pool_overflows(pool_state@, root_state@, self.config().pool),
    {
        match Self::pool_root_index(pool_state) {
            Ok(Some(_)) => {
                let readable = match root_state.get("Root") {
                    Some(v) => scval_to_u256(v).is_ok(),
                    None => false,
                };
                if !readable {
                    return false;
                }
            },
            Ok(None) => {},
            Err(_) => {
                return false;
            },
        }
        match pool_state.get("Levels") {
            Some(ContractValue::U32(levels)) => *levels >= 64,
            _ => false,
        }
    }

    /// Reads the state of the pool contract out of what was asked of it:
    /// `pool_state` under [`StateFetcher::pool_query`], and, where
    /// [`StateFetcher::pool_root_index`] gives an index, `root_state` under
    /// [`StateFetcher::pool_root_query`]. Without an index `root_state` is not
    /// read.
    pub fn pool_contract_state(
        &self,
        latest_ledger: u32,
        pool_state: &ContractData,
        root_state: &ContractData,
    ) -> (r: Result<PoolInfo, StateError>)
        requires
            !pool_overflows(pool_state@, root_state@, self.config().pool),
        ensures
            match r {
                Ok(info) => pool_error(pool_state@, root_state@, self.config().pool) is None
                    && is_pool_info(
                    info,
                    latest_ledger,
                    self.config().pool,
                    pool_state@,
                    root_state@,
                ),
                Err(e) => pool_error(pool_state@, root_state@, self.config().pool) == Some(e),
            },
    {
        let id = &self.config.pool;
        let merkle_current_root_index = Self::pool_root_index(pool_state)?;
        let root_u256 = match merkle_current_root_index {
            Some(_) => Some(scval_to_u256(get_state(root_state, "Root", id)?)?),
            None => None,
        };

        let merkle_levels = scval_to_u32(get_state(pool_state, "Levels", id)?)?;
        let merkle_capacity = tree_capacity(merkle_levels);
        let merkle_next_index = scval_to_u64(get_state(pool_state, "NextIndex", id)?)?;
        let maximum_deposit_amount_u256 = scval_to_u256(
            get_state(pool_state, "MaximumDepositAmount", id)?,
        )?;
        let maximum_deposit_amount = ExtAmount(
            Self::u256_to_i128_checked(maximum_deposit_amount_u256, "maximum_deposit_amount")?,
        );
        let merkle_root = match root_u256 {
            Some(root) => Some(Field::try_from_u256(root)?),
            None => None,
        };

        Ok(
            PoolInfo {
                ledger: latest_ledger,
                contract_id: id.clone(),
                contract_type: "Privacy Pool".to_string(),
                admin: address_at(pool_state, "Admin", id)?,
                token: address_at(pool_state, "Token", id)?,
                verifier: address_at(pool_state, "Verifier", id)?,
                aspmembership: address_at(pool_state, "ASPMembership", id)?,
                aspnonmembership: address_at(pool_state, "ASPNonMembership", id)?,
                merkle_levels,
                merkle_current_root_index,
                merkle_next_index: to_decimal(merkle_next_index),
                maximum_deposit_amount,
                merkle_root,
                merkle_capacity,
                total_commitments: to_decimal(merkle_next_index),
            },
        )
    }

    /// What to ask of the membership contract.
    pub fn asp_membership_query(&self) -> (r: ContractQuery)
        ensures
            r.contract_id == self.config().asp_membership,
            r.keys@ == seq!["Root", "Levels", "NextIndex", "Admin", "AdminInsertOnly"],
            r.indexed_keys@ == Seq::<(&'static str, u32)>::empty(),
    {
        ContractQuery {
            contract_id: self.config.asp_membership.clone(),
            keys: vec!["Root", "Levels", "NextIndex", "Admin", "AdminInsertOnly"],
            indexed_keys: Vec::new(),
        }
    }

    /// Whether reading this state of the membership contract would come to a
    /// tree with more leaves than a `u64` can count.
    pub fn asp_membership_capacity_overflows(&self, data: &ContractData) -> (r: bool)
        ensures
            r == asp_membership_overflows(data@, self.config().asp_membership),
    {
        match (data.get("NextIndex"), data.get("Levels")) {
            (Some(ContractValue::U64(_)), Some(ContractValue::U32(levels))) => *levels >= 64,
            _ => false,
        }
    }

    /// Reads the state of the membership contract out of what was asked of it
    /// under [`StateFetcher::asp_membership_query`].
    pub fn asp_membership_contract_state(&self, latest_ledger: u32, data: &ContractData) -> (r:
        Result<AspMembership, StateError>)
        requires
            !asp_membership_overflows(data@, self.config().asp_membership),
        ensures
            match r {
                Ok(info) => asp_membership_error(data@, self.config().asp_membership) is None
                    && is_asp_membership(info, latest_ledger, self.config().asp_membership, data@),
                Err(e) => asp_membership_error(data@, self.config().asp_membership) == Some(e),
            },
    {
        let id = &self.config.asp_membership;
        let next_index = scval_to_u64(get_state(data, "NextIndex", id)?)?;
        let levels = scval_to_u32(get_state(data, "Levels", id)?)?;
        let capacity = tree_capacity(levels);
        let root_u256 = scval_to_u256(get_state(data, "Root", id)?)?;
        let root = Field::try_from_u256(root_u256)?;

        Ok(
            AspMembership {
                ledger: latest_ledger,
                contract_id: id.clone(),
                contract_type: "ASP Membership".to_string(),
                root,
                levels,
                next_index: to_decimal(next_index),
                admin: address_at(data, "Admin", id)?,
                admin_insert_only: scval_to_bool(get_state(data, "AdminInsertOnly", id)?)?,
                capacity,
                used_slots: to_decimal(next_index),
            },
        )
    }

    /// What to ask of the non-membership contract.
    pub fn asp_nonmembership_query(&self) -> (r: ContractQuery)
        ensures
            r.contract_id == self.config().asp_non_membership,
            r.keys@ == seq!["Root", "Admin"],
            r.indexed_keys@ == Seq::<(&'static str, u32)>::empty(),
    {
        ContractQuery {
            contract_id: self.config.asp_non_membership.clone(),
            keys: vec!["Root", "Admin"],
            indexed_keys: Vec::new(),
        }
    }

    /// Reads the state of the non-membership contract out of what was asked of
    /// it under [`StateFetcher::asp_nonmembership_query`].
    pub fn asp_nonmembership_contract_state(&self, latest_ledger: u32, data: &ContractData) -> (r:
        Result<AspNonMembership, StateError>)
        ensures
            match r {
                Ok(info) => asp_nonmembership_error(data@, self.config().asp_non_membership)
                    is None && is_asp_nonmembership(
                    info,
                    latest_ledger,
                    self.config().asp_non_membership,
                    data@,
                ),
                Err(e) => asp_nonmembership_error(data@, self.config().asp_non_membership) == Some(
                    e,
                ),
            },
    {
        let id = &self.config.asp_non_membership;
        let root_u256 = scval_to_u256(get_state(data, "Root", id)?)?;
        let root = Field::try_from_u256(root_u256)?;

        Ok(
            AspNonMembership {
                ledger: latest_ledger,
                contract_id: id.clone(),
                contract_type: "ASP Non-Membership (Sparse Merkle Tree)".to_string(),
                root,
                is_empty: root.is_zero(),
                admin: address_at(data, "Admin", id)?,
            },
        )
    }

    /// Puts the states of the three contracts together, once each has been read
    /// or has failed. One failure is enough to fail; of several the first one
    /// counts, in the order of the arguments.
    pub fn all_contracts_data<E>(
        &self,
        pool: Result<PoolInfo, E>,
        asp_membership: Result<AspMembership, E>,
        asp_non_membership: Result<AspNonMembership, E>,
    ) -> (r: Result<ContractsStateData, E>)
        ensures
            r is Ok <==> pool is Ok && asp_membership is Ok && asp_non_membership is Ok,
            match r {
                Ok(data) => {
                    &&& data.network@ == "testnet"@
                    &&& pool == Ok::<PoolInfo, E>(data.pool)
                    &&& asp_membership == Ok::<AspMembership, E>(data.asp_membership)
                    &&& asp_non_membership == Ok::<AspNonMembership, E>(data.asp_non_membership)
                },
                Err(e) => e == (if pool is Err {
                    pool->Err_0
                } else if asp_membership is Err {
                    asp_membership->Err_0
                } else {
                    asp_non_membership->Err_0
                }),
            },
    {
        match (pool, asp_membership, asp_non_membership) {
            (Ok(pool), Ok(asp_membership), Ok(asp_non_membership)) => Ok(
                ContractsStateData {
                    network: "testnet".to_string(),
                    pool,
                    asp_membership,
                    asp_non_membership,
                },
            ),
            (Err(e), _, _) => Err(e),
            (_, Err(e), _) => Err(e),
            (_, _, Err(e)) => Err(e),
        }
    }
}

} // verus!
