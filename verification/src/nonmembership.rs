//! Proofs that a key is not in the on-chain sparse Merkle tree.
use vstd::prelude::*;
use vstd::string::StringExecFns;

use crate::contract_state::StateFetcher;
use crate::error::{error_text, first_of, StateError};
use crate::field::{range_error, Field, NotePublicKey};
use crate::find_result::{
    field_of, field_or, field_values, find_result_error, first_unreadable, last_named,
    lemma_elements_error, lemma_first_unreadable, lemma_last_named, optional_element,
    optional_flag, siblings_of, unreadable_key,
};
use crate::symbol::{symbol_failure, symbol_text};
use crate::transaction::{addresses_error, is_find_key_call, TransactionEnvelope};
use crate::types::AspNonMembershipProof;
use crate::uint::le_nat;
use crate::value::{
    debug_of_base64, debug_of_entry, lemma_entry_models, read_xdr_base64, scval_debug,
    scval_of_base64, ContractValue, ValueSpec,
};

verus! {

/// The result of one simulated operation.
#[derive(Debug, PartialEq, Eq)]
pub struct OpResult {
    /// The base64 text of the XDR value that the operation returned.
    pub retval: Option<String>,
}

/// The outcome of a simulated transaction. The result of its operation is in
/// `result`, or else first in `results`.
#[derive(Debug, PartialEq, Eq)]
pub struct SimulationResponse {
    pub result: Option<OpResult>,
    pub results: Vec<OpResult>,
}

/// How far a proof has come.
#[derive(Debug, PartialEq, Eq)]
pub enum ProofStep {
    /// The proof is complete.
    Done(AspNonMembershipProof),
    /// The transaction is to be simulated; its outcome completes the proof.
    Simulate { pending: PendingProof, tx: TransactionEnvelope },
}

/// A proof that waits for the lookup of its key. Only
/// [`StateFetcher::get_nonmembership_proof`] hands one out.
#[derive(Debug, PartialEq, Eq)]
pub struct PendingProof {
    key: Field,
    root: Field,
    depth: usize,
}

impl PendingProof {
    /// The tree has levels, and something in it.
    #[verifier::type_invariant]
    spec fn asked_for(self) -> bool {
        self.depth > 0 && self.root@ != 0
    }

    /// The key that the proof is for.
    pub closed spec fn key(&self) -> nat {
        self.key@
    }

    /// The root of the tree.
    pub closed spec fn root(&self) -> nat {
        self.root@
    }

    /// The number of levels of the tree.
    pub closed spec fn depth(&self) -> nat {
        self.depth as nat
    }
}

/// The siblings of a path of `depth` levels: the first ones that there are,
/// then zeros.
pub open spec fn fit(siblings: Seq<nat>, depth: nat) -> Seq<nat> {
    Seq::new(
        depth,
        |i: int|
            if i < siblings.len() {
                siblings[i]
            } else {
                0
            },
    )
}

/// The failure of asking for a proof, if it fails.
pub open spec fn request_error(
    note_pubkey: Seq<u8>,
    root: nat,
    depth: nat,
    source_account: Seq<char>,
    contract_id: Seq<char>,
) -> Option<StateError> {
    if depth == 0 {
        Some(StateError::ZeroSmtDepth)
    } else {
        first_of(
            range_error(le_nat(note_pubkey)),
            if root == 0 {
                None
            } else {
                addresses_error(source_account, contract_id)
            },
        )
    }
}

/// Whether `proof` is the proof for a key in the tree that holds nothing.
pub open spec fn is_empty_tree_proof(proof: AspNonMembershipProof, key: nat, depth: nat) -> bool {
    &&& proof.key@ == key
    &&& proof.old_key@ == 0
    &&& proof.old_value@ == 0
    &&& proof.is_old0
    &&& field_values(proof.siblings@) == fit(Seq::empty(), depth)
    &&& proof.root@ == 0
}

/// The operation result of a simulation, if it reported one.
pub open spec fn op_result(sim: SimulationResponse) -> Option<OpResult> {
    if sim.result is Some {
        sim.result
    } else if sim.results@.len() > 0 {
        Some(sim.results@[0])
    } else {
        None
    }
}

/// The failure of reading the return value of a simulation, if it fails.
pub open spec fn retval_error(sim: SimulationResponse) -> Option<StateError> {
    match op_result(sim) {
        None => Some(StateError::NoOpResults),
        Some(result) => if result.retval is None {
            Some(StateError::MissingRetval)
        } else {
            None
        },
    }
}

/// The text of the return value of a simulation.
pub open spec fn retval_text(sim: SimulationResponse) -> Seq<char> {
    op_result(sim)->0.retval->0@
}

/// Whether a readable lookup result says that the key is in the tree.
pub open spec fn says_found(v: ValueSpec) -> bool {
    field_of(v->Table_0->0, "found"@) == Some(ValueSpec::Bool(true))
}

/// The failure of completing a proof from the value that the lookup returned,
/// if it fails.
pub open spec fn lookup_error(v: ValueSpec) -> Option<StateError> {
    first_of(
        find_result_error(v),
        if says_found(v) {
            Some(StateError::KeyExists)
        } else {
            None
        },
    )
}

/// Whether `proof` is the proof that the value returned by the lookup of `key`
/// gives.
pub open spec fn is_lookup_proof(
    proof: AspNonMembershipProof,
    key: nat,
    root: nat,
    depth: nat,
    v: ValueSpec,
) -> bool {
    let entries = v->Table_0->0;
    &&& proof.key@ == key
    &&& proof.old_key@ == optional_element(field_or(entries, "not_found_key"@, "notFoundKey"@))
    &&& proof.old_value@ == optional_element(
        field_or(entries, "not_found_value"@, "notFoundValue"@),
    )
    &&& proof.is_old0 == optional_flag(field_or(entries, "is_old0"@, "isOld0"@))
    &&& field_values(proof.siblings@) == fit(siblings_of(field_of(entries, "siblings"@)), depth)
    &&& proof.root@ == root
}

/// The failure of completing a proof from a simulation, if it fails.
pub open spec fn simulation_error(sim: SimulationResponse) -> Option<StateError> {
    first_of(
        retval_error(sim),
        match scval_of_base64(retval_text(sim)) {
            Ok(v) => lookup_error(v),
            Err(_) => Some(StateError::InvalidRetval),
        },
    )
}

/// What a user is told of the value that a lookup returned, where it completes
/// no proof.
pub open spec fn lookup_text(v: ValueSpec) -> Option<Seq<char>> {
    let entries = v->Table_0->0;
    match lookup_error(v) {
        None => None,
        Some(StateError::FindResultNotTable) => Some(
            "FindResult: expected ScVal::Map, got "@ + scval_debug(v),
        ),
        Some(StateError::FindResultFieldName) => Some(
            "FindResult: field name should be a symbol: "@ + scval_debug(
                entries[first_unreadable(entries)].0,
            ),
        ),
        Some(StateError::FindResultFieldText) => Some(
            symbol_failure(entries[first_unreadable(entries)].0->Symbol_0),
        ),
        Some(StateError::FindResultSiblings) => Some(
            "FindResult.siblings: unexpected ScVal: "@ + scval_debug(
                field_of(entries, "siblings"@)->0,
            ),
        ),
        Some(e) => error_text(e),
    }
}

/// What a user is told of a simulation that completes no proof.
pub open spec fn simulation_text(sim: SimulationResponse) -> Option<Seq<char>> {
    match retval_error(sim) {
        Some(e) => error_text(e),
        None => match scval_of_base64(retval_text(sim)) {
            Ok(v) => lookup_text(v),
            Err(failure) => Some(failure),
        },
    }
}

/// Trims the siblings to `depth`, or pads them with zeros.
pub fn fit_siblings(siblings: &mut Vec<Field>, depth: usize)
    ensures
        field_values(final(siblings)@) == fit(field_values(old(siblings)@), depth as nat),
        final(siblings)@.len() == depth,
        forall|i: int|
            #![trigger final(siblings)@[i]]
            0 <= i < depth ==> (if i < old(siblings)@.len() {
                final(siblings)@[i] == old(siblings)@[i]
            } else {
                final(siblings)@[i]@ == 0
            }),
{
    if siblings.len() > depth {
        siblings.truncate(depth);
    }
    while siblings.len() < depth
        invariant
            siblings@.len() <= depth,
            siblings@.len() >= old(siblings)@.len() || siblings@.len() == depth,
            forall|i: int|
                #![trigger siblings@[i]]
                0 <= i < siblings@.len() ==> (if i < old(siblings)@.len() {
                    siblings@[i] == old(siblings)@[i]
                } else {
                    siblings@[i]@ == 0
                }),
        decreases depth - siblings.len(),
    {
        siblings.push(Field::zero());
    }
    assert(field_values(siblings@) =~= fit(field_values(old(siblings)@), depth as nat));
}

impl StateFetcher {
    /// Begins the proof that the key of a note is not in the tree with this
    /// root. Nothing is in the tree whose root is zero, so the proof for it is
    /// complete at once, padded to `smt_depth`. For any other root the key is
    /// to be looked up by a simulated transaction, whose outcome goes to
    /// [`StateFetcher::finish_nonmembership_proof`].
    pub fn get_nonmembership_proof(
        &self,
        note_pubkey: &NotePublicKey,
        non_membership_root: Field,
        smt_depth: usize,
        source_account: &str,
    ) -> (r: Result<ProofStep, StateError>)
        ensures
            match r {
                Ok(step) => request_error(
                    note_pubkey.0@,
                    non_membership_root@,
                    smt_depth as nat,
                    source_account@,
                    self.config().asp_non_membership@,
                ) is None && match step {
                    ProofStep::Done(proof) => non_membership_root@ == 0 && is_empty_tree_proof(
                        proof,
                        le_nat(note_pubkey.0@),
                        smt_depth as nat,
                    ),
                    ProofStep::Simulate { pending, tx } => {
                        &&& non_membership_root@ != 0
                        &&& pending.key() == le_nat(note_pubkey.0@)
                        &&& pending.root() == non_membership_root@
                        &&& pending.depth() == smt_depth
                        &&& is_find_key_call(
                            tx,
                            source_account@,
                            self.config().asp_non_membership@,
                            pending.key(),
                        )
                    },
                },
                Err(e) => request_error(
                    note_pubkey.0@,
                    non_membership_root@,
                    smt_depth as nat,
                    source_account@,
                    self.config().asp_non_membership@,
                ) == Some(e),
            },
    {
        if smt_depth == 0 {
            return Err(StateError::ZeroSmtDepth);
        }
        let key = Field::try_from_le_bytes(note_pubkey.0)?;
        if non_membership_root.is_zero() {
            let mut siblings: Vec<Field> = Vec::new();
            fit_siblings(&mut siblings, smt_depth);
            assert(field_values(Seq::<Field>::empty()) =~= Seq::<nat>::empty());
            return Ok(
                ProofStep::Done(
                    AspNonMembershipProof {
                        key,
                        old_key: Field::zero(),
                        old_value: Field::zero(),
                        is_old0: true,
                        siblings,
                        root: Field::zero(),
                    },
                ),
            );
        }
        let tx = Self::build_find_key_simulation_tx(
            self.contract_config().asp_non_membership.as_str(),
            source_account,
            key,
        )?;
        let pending = PendingProof { key, root: non_membership_root, depth: smt_depth };
        Ok(ProofStep::Simulate { pending, tx })
    }

    /// The text of the value that a simulated operation returned.
    pub fn simulation_retval(sim: &SimulationResponse) -> (r: Result<&String, StateError>)
        ensures
            match r {
                Ok(text) => retval_error(*sim) is None && text@ == retval_text(*sim),
                Err(e) => retval_error(*sim) == Some(e),
            },
    {
        let op_result = match &sim.result {
            Some(result) => result,
            None => {
                if sim.results.len() == 0 {
                    return Err(StateError::NoOpResults);
                }
                &sim.results[0]
            },
        };
        match &op_result.retval {
            Some(text) => Ok(text),
            None => Err(StateError::MissingRetval),
        }
    }

    /// Completes a proof from the value that the lookup of its key returned.
    pub fn nonmembership_proof_from_lookup(
        key: Field,
        non_membership_root: Field,
        smt_depth: usize,
        retval: &ContractValue,
    ) -> (r: Result<AspNonMembershipProof, StateError>)
        ensures
            match r {
                Ok(proof) => lookup_error(retval@) is None && is_lookup_proof(
                    proof,
                    key@,
                    non_membership_root@,
                    smt_depth as nat,
                    retval@,
                ),
                Err(e) => lookup_error(retval@) == Some(e),
            },
    {
        let parsed = Self::parse_find_result(retval)?;
        if parsed.found {
            return Err(StateError::KeyExists);
        }
        let mut siblings = parsed.siblings;
        fit_siblings(&mut siblings, smt_depth);
        Ok(
            AspNonMembershipProof {
                key,
                old_key: parsed.not_found_key,
                old_value: parsed.not_found_value,
                is_old0: parsed.is_old0,
                siblings,
                root: non_membership_root,
            },
        )
    }

    /// Completes a proof from the outcome of the simulation that looked its key
    /// up.
    pub fn finish_nonmembership_proof(pending: PendingProof, sim: &SimulationResponse) -> (r: Result<
        AspNonMembershipProof,
        StateError,
    >)
        ensures
            match r {
                Ok(proof) => {
                    &&& simulation_error(*sim) is None
                    &&& is_lookup_proof(
                        proof,
                        pending.key(),
                        pending.root(),
                        pending.depth(),
                        scval_of_base64(retval_text(*sim))->Ok_0,
                    )
                    &&& proof.siblings@.len() > 0
                    &&& proof.root@ != 0
                },
                Err(e) => simulation_error(*sim) == Some(e),
            },
    {
        proof {
            use_type_invariant(&pending);
        }
        let text = Self::simulation_retval(sim)?;
        let retval = ContractValue::from_xdr_base64(text.as_str())?;
        let proof = Self::nonmembership_proof_from_lookup(
            pending.key,
            pending.root,
            pending.depth,
            &retval,
        )?;
        assert(field_values(proof.siblings@).len() == proof.siblings@.len());
        Ok(proof)
    }

    /// Tells a user why a simulation completes no proof, with the value that is
    /// to blame.
    pub fn lookup_message(sim: &SimulationResponse) -> (r: Option<String>)
        ensures
            r is Some <==> simulation_error(*sim) is Some,
            r is Some <==> simulation_text(*sim) is Some,
            r matches Some(text) ==> text@ == simulation_text(*sim)->0,
    {
        let text = match Self::simulation_retval(sim) {
            Ok(text) => text.as_str(),
            Err(e) => {
                return e.message();
            },
        };
        let retval = match read_xdr_base64(text) {
            Ok(v) => ContractValue::from_xdr(v),
            Err(failure) => {
                return Some(failure);
            },
        };
        let table = match &retval {
            ContractValue::Table(Some(table)) => table,
            _ => {
                return Some(
                    "FindResult: expected ScVal::Map, got ".to_string().concat(
                        debug_of_base64(text).as_str(),
                    ),
                );
            },
        };
        let ghost entries = retval@->Table_0->0;
        proof {
            lemma_entry_models(table@);
        }
        if let Some(i) = unreadable_key(table) {
            proof {
                lemma_first_unreadable(entries, i as int);
                assert(entries[i as int] == (table@[i as int].key@, table@[i as int].val@));
            }
            if let ContractValue::Symbol(bytes) = &table[i].key {
                if let Err(failure) = symbol_text(bytes.as_slice()) {
                    return Some(failure);
                }
            }
            return Some(
                "FindResult: field name should be a symbol: ".to_string().concat(
                    debug_of_entry(text, i).0.as_str(),
                ),
            );
        }
        proof {
            if let Some(ValueSpec::List(Some(items))) = field_of(entries, "siblings"@) {
                lemma_elements_error(items);
            }
        }
        match Self::parse_find_result(&retval) {
            Ok(parsed) => if parsed.found {
                StateError::KeyExists.message()
            } else {
                None
            },
            Err(StateError::FindResultSiblings) => match last_named(table, "siblings") {
                Some(i) => {
                    proof {
                        lemma_last_named(entries, "siblings"@, i as int);
                    }
                    Some(
                        "FindResult.siblings: unexpected ScVal: ".to_string().concat(
                            debug_of_entry(text, i).1.as_str(),
                        ),
                    )
                },
                None => None,
            },
            Err(e) => e.message(),
        }
    }
}

} // verus!
