//! The values that the library takes in and hands out.
use vstd::hash_map::StringHashMap;
use vstd::prelude::*;

use crate::field::Field;
use crate::value::{ContractValue, ValueSpec};

verus! {

/// The ids of the contracts of a deployment.
#[derive(Debug, PartialEq, Eq)]
pub struct ContractConfig {
    pub pool: String,
    pub asp_membership: String,
    pub asp_non_membership: String,
}

/// A request for the data of one contract: the entries under plain keys, and
/// those under keys that carry an index.
#[derive(Debug, PartialEq, Eq)]
pub struct ContractQuery {
    pub contract_id: String,
    pub keys: Vec<&'static str>,
    pub indexed_keys: Vec<(&'static str, u32)>,
}

/// The data of one contract, by key.
pub struct ContractData {
    entries: StringHashMap<ContractValue>,
}

impl View for ContractData {
    type V = Map<Seq<char>, ValueSpec>;

    closed spec fn view(&self) -> Map<Seq<char>, ValueSpec> {
        self.entries@.map_values(|v: ContractValue| v@)
    }
}

impl ContractData {
    /// No data.
    pub fn new() -> (r: ContractData)
        ensures
            r@ == Map::<Seq<char>, ValueSpec>::empty(),
    {
        let r = ContractData { entries: StringHashMap::new() };
        assert(r@ =~= Map::<Seq<char>, ValueSpec>::empty());
        r
    }

    /// Puts a value under a key, in place of one that was there.
    pub fn insert(&mut self, key: String, val: ContractValue)
        ensures
            final(self)@ == old(self)@.insert(key@, val@),
    {
        self.entries.insert(key, val);
        assert(self@ =~= old(self)@.insert(key@, val@));
    }

    /// The value under a key.
    pub fn get(&self, key: &str) -> (r: Option<&ContractValue>)
        ensures
            match r {
                Some(v) => self@.contains_key(key@) && self@[key@] == v@,
                None => !self@.contains_key(key@),
            },
    {
        self.entries.get(key)
    }
}

/// A signed amount that enters or leaves the pool.
#[derive(Clone, Copy, Debug, PartialEq, Eq, Structural)]
pub struct ExtAmount(pub i128);

/// The state of the pool contract.
#[derive(Debug, PartialEq, Eq)]
pub struct PoolInfo {
    pub ledger: u32,
    pub contract_id: String,
    pub contract_type: String,
    pub admin: String,
    pub token: String,
    pub verifier: String,
    pub aspmembership: String,
    pub aspnonmembership: String,
    pub merkle_levels: u32,
    pub merkle_current_root_index: Option<u32>,
    pub merkle_next_index: String,
    pub maximum_deposit_amount: ExtAmount,
    pub merkle_root: Option<Field>,
    pub merkle_capacity: u64,
    pub total_commitments: String,
}

/// The state of the membership contract.
#[derive(Debug, PartialEq, Eq)]
pub struct AspMembership {
    pub ledger: u32,
    pub contract_id: String,
    pub contract_type: String,
    pub root: Field,
    pub levels: u32,
    pub next_index: String,
    pub admin: String,
    pub admin_insert_only: bool,
    pub capacity: u64,
    pub used_slots: String,
}

/// The state of the non-membership contract.
#[derive(Debug, PartialEq, Eq)]
pub struct AspNonMembership {
    pub ledger: u32,
    pub contract_id: String,
    pub contract_type: String,
    pub root: Field,
    pub is_empty: bool,
    pub admin: String,
}

/// The state of all contracts of a deployment.
#[derive(Debug, PartialEq, Eq)]
pub struct ContractsStateData {
    pub network: String,
    pub pool: PoolInfo,
    pub asp_membership: AspMembership,
    pub asp_non_membership: AspNonMembership,
}

/// A proof that a key is not in the sparse Merkle tree of this root.
#[derive(Debug, PartialEq, Eq)]
pub struct AspNonMembershipProof {
    pub key: Field,
    pub old_key: Field,
    pub old_value: Field,
    pub is_old0: bool,
    pub siblings: Vec<Field>,
    pub root: Field,
}

/// The public inputs of a proof, as the contract takes them.
#[derive(Clone, Copy, Debug, PartialEq, Eq)]
pub struct OnchainProofPublicInputs {
    pub root: Field,
    pub input_nullifiers: [Field; 2],
    pub output_commitment0: Field,
    pub output_commitment1: Field,
    pub public_amount: Field,
    pub ext_data_hash_be: [u8; 32],
    pub asp_membership_root: Field,
    pub asp_non_membership_root: Field,
}

/// A transaction that is ready to be signed.
#[derive(Clone, Debug, PartialEq, Eq)]
pub struct PreparedSorobanTx {
    pub tx_xdr: String,
    /// Base64-encoded XDR `SorobanAuthorizationEntry` list from simulation.
    pub auth_entries: Vec<String>,
}

} // verus!
