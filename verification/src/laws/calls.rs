//! What holds of the transactions that call a contract, and of the proofs that
//! wait for them.
use stellar_xdr::curr::SorobanAuthorizationEntry;
use vstd::prelude::*;
use vstd::utf8::{encode_utf8, is_ascii_chars_encode_utf8};

use crate::contract_state::StateFetcher;
use crate::error::StateError;
use crate::field::{Field, NotePublicKey};
use crate::find_result::field_values;
use crate::laws::numbers::{lemma_words_injective, words_number};
use crate::nonmembership::{OpResult, PendingProof, ProofStep, SimulationResponse};
use crate::strkey::{account_key_of, contract_hash_of};
use crate::transaction::{
    InvokeContractArgs, Memo, MuxedAccount, Preconditions, ScAddress, SequenceNumber,
    TransactionEnvelope, TransactionExt,
};
use crate::types::{AspNonMembershipProof, ContractConfig};
use crate::value::{ContractValue, UInt256Parts};

verus! {

/// The one call that an unsigned transaction without conditions, memo or
/// extension makes for its source account.
pub open spec fn only_call(envelope: TransactionEnvelope) -> Option<InvokeContractArgs> {
    if envelope.signatures@.len() == 0 && envelope.tx.cond == Preconditions::Absent
        && envelope.tx.memo == Memo::Absent && envelope.tx.ext == TransactionExt::V0
        && envelope.tx.operations@.len() == 1 && envelope.tx.operations@[0].source_account is None {
        Some(envelope.tx.operations@[0].body.host_function)
    } else {
        None
    }
}

/// The account of an address is the key that the address encodes.
pub proof fn law_account_is_the_one_addressed(
    address: &str,
    r: Result<MuxedAccount, StateError>,
)
    requires
        call_ensures(StateFetcher::muxed_account_from_g, (address,), r),
    ensures
        match account_key_of(address@) {
            Some(key) => r matches Ok(MuxedAccount::Ed25519(bytes)) && bytes@ == key,
            None => r == Err::<MuxedAccount, StateError>(StateError::InvalidSourceAccount),
        },
{
}

/// The contract of an address is the id that the address encodes.
pub proof fn law_contract_is_the_one_addressed(
    address: &str,
    r: Result<ScAddress, StateError>,
)
    requires
        call_ensures(StateFetcher::contract_scaddress_from_str, (address,), r),
    ensures
        match contract_hash_of(address@) {
            Some(hash) => r matches Ok(ScAddress::Contract(bytes)) && bytes@ == hash,
            None => r == Err::<ScAddress, StateError>(StateError::InvalidContractId),
        },
{
}

/// A call carries what it was given, each in its place, and is refused exactly
/// where the name does not fit a symbol or a list is too long.
pub proof fn law_call_carries_what_it_was_given(
    source: MuxedAccount,
    seq_num: SequenceNumber,
    fee: u32,
    contract: ScAddress,
    function: &str,
    args: Vec<ContractValue>,
    auth: Vec<SorobanAuthorizationEntry>,
    r: Result<TransactionEnvelope, StateError>,
)
    requires
        call_ensures(
            StateFetcher::call_envelope,
            (source, seq_num, fee, contract, function, args, auth),
            r,
        ),
    ensures
        encode_utf8(function@).len() > 32 ==> r == Err::<TransactionEnvelope, StateError>(
            StateError::InvalidFunctionName,
        ),
        encode_utf8(function@).len() <= 32 && (args@.len() > 0xffff_ffff || auth@.len()
            > 0xffff_ffff) ==> r == Err::<TransactionEnvelope, StateError>(
            StateError::LengthExceedsMax,
        ),
        encode_utf8(function@).len() <= 32 && args@.len() <= 0xffff_ffff && auth@.len()
            <= 0xffff_ffff ==> (r matches Ok(envelope) && {
            &&& envelope.tx.source_account == source
            &&& envelope.tx.seq_num == seq_num
            &&& envelope.tx.fee == fee
            &&& envelope.tx.operations@[0].body.auth@ == auth@
            &&& only_call(envelope) matches Some(call) && {
                &&& call.contract_address == contract
                &&& call.function_name@ == encode_utf8(function@)
                &&& call.args@ == args@
            }
        }),
{
}

/// A call between addresses is the call between the account and the contract that
/// they encode. The account is refused first, then the contract, then the call.
pub proof fn law_call_is_between_the_addresses(
    source_account: &str,
    seq_num: SequenceNumber,
    fee: u32,
    contract_id: &str,
    function: &str,
    args: Vec<ContractValue>,
    auth: Vec<SorobanAuthorizationEntry>,
    source: Result<MuxedAccount, StateError>,
    contract: Result<ScAddress, StateError>,
    call: Result<TransactionEnvelope, StateError>,
    r: Result<TransactionEnvelope, StateError>,
)
    requires
        call_ensures(StateFetcher::muxed_account_from_g, (source_account,), source),
        call_ensures(StateFetcher::contract_scaddress_from_str, (contract_id,), contract),
        source is Ok && contract is Ok ==> call_ensures(
            StateFetcher::call_envelope,
            (source->Ok_0, seq_num, fee, contract->Ok_0, function, args, auth),
            call,
        ),
        call_ensures(
            StateFetcher::build_invoke_contract_tx_envelope,
            (source_account, seq_num, fee, contract_id, function, args, auth),
            r,
        ),
    ensures
        source matches Err(e) ==> r == Err::<TransactionEnvelope, StateError>(e),
        source is Ok ==> (contract matches Err(e) ==> r == Err::<TransactionEnvelope, StateError>(
            e,
        )),
        source is Ok && contract is Ok ==> (call matches Err(e) ==> r == Err::<
            TransactionEnvelope,
            StateError,
        >(e)),
        source is Ok && contract is Ok ==> (call is Ok ==> (r matches Ok(envelope) && {
            &&& envelope.tx.source_account->0@ == source->Ok_0->0@
            &&& envelope.tx.seq_num == seq_num
            &&& envelope.tx.fee == fee
            &&& envelope.tx.operations@[0].body.auth@ == auth@
            &&& only_call(envelope) matches Some(made) && {
                &&& made.contract_address->0@ == contract->Ok_0->0@
                &&& made.function_name@ == encode_utf8(function@)
                &&& made.args@ == args@
            }
        })),
{
}

/// Whether a transaction looks a key up: it calls `find_key` with the words of the
/// key as the one argument, under the fee 100 and the sequence number zero, and
/// carries no authorization.
pub open spec fn looks_up(
    envelope: TransactionEnvelope,
    account: Seq<u8>,
    contract: Seq<u8>,
    key: nat,
) -> bool {
    &&& envelope.tx.source_account matches MuxedAccount::Ed25519(bytes) && bytes@ == account
    &&& envelope.tx.fee == 100
    &&& envelope.tx.seq_num.0 == 0
    &&& envelope.tx.operations@[0].body.auth@.len() == 0
    &&& only_call(envelope) matches Some(call) && {
        &&& call.contract_address matches ScAddress::Contract(bytes) && bytes@ == contract
        // The bytes of the name in ASCII.
        &&& call.function_name@ == seq![0x66u8, 0x69, 0x6e, 0x64, 0x5f, 0x6b, 0x65, 0x79]
        &&& call.args@.len() == 1
        &&& call.args@[0] matches ContractValue::U256(p) && words_number(p) == key
    }
}

/// The name of the lookup function, in bytes.
proof fn lemma_find_key()
    ensures
        encode_utf8("find_key"@) == seq![0x66u8, 0x69, 0x6e, 0x64, 0x5f, 0x6b, 0x65, 0x79],
{
    reveal_strlit("find_key");
    is_ascii_chars_encode_utf8("find_key"@);
    assert(encode_utf8("find_key"@) =~= seq![
        0x66u8,
        0x69,
        0x6e,
        0x64,
        0x5f,
        0x6b,
        0x65,
        0x79,
    ]);
}

/// The lookup of a key asks for that key: the words of its one argument are those
/// of the key, whatever key it is.
pub proof fn law_lookup_asks_for_the_key(
    contract_id: &str,
    source_account: &str,
    key: Field,
    r: Result<TransactionEnvelope, StateError>,
)
    requires
        call_ensures(
            StateFetcher::build_find_key_simulation_tx,
            (contract_id, source_account, key),
            r,
        ),
    ensures
        account_key_of(source_account@) is None ==> r == Err::<TransactionEnvelope, StateError>(
            StateError::InvalidSourceAccount,
        ),
        account_key_of(source_account@) is Some && contract_hash_of(contract_id@) is None ==> r
            == Err::<TransactionEnvelope, StateError>(StateError::InvalidContractId),
        account_key_of(source_account@) is Some && contract_hash_of(contract_id@) is Some ==> (
        r matches Ok(envelope) && looks_up(
            envelope,
            account_key_of(source_account@)->0,
            contract_hash_of(contract_id@)->0,
            key@,
        )),
{
    lemma_find_key();
}

/// The argument of a lookup is the contract value of the key, word by word.
pub proof fn law_lookup_argument_is_the_key_as_words(
    contract_id: &str,
    source_account: &str,
    key: Field,
    envelope: TransactionEnvelope,
    value: ContractValue,
    p: UInt256Parts,
)
    requires
        call_ensures(
            StateFetcher::build_find_key_simulation_tx,
            (contract_id, source_account, key),
            Ok::<TransactionEnvelope, StateError>(envelope),
        ),
        call_ensures(StateFetcher::field_to_scval_u256, (key,), value),
        value == ContractValue::U256(p),
    ensures
        envelope.tx.operations@[0].body.host_function.args@.len() == 1,
        envelope.tx.operations@[0].body.host_function.args@[0] matches ContractValue::U256(q) && {
            &&& q.hi_hi == p.hi_hi
            &&& q.hi_lo == p.hi_lo
            &&& q.lo_hi == p.lo_hi
            &&& q.lo_lo == p.lo_lo
        },
{
    let arg = envelope.tx.operations@[0].body.host_function.args@[0];
    if let ContractValue::U256(q) = arg {
        lemma_words_injective(p, q);
    }
}

/// A proof is begun as asked: depth and key are checked first; the tree whose root
/// is zero gets its proof at once; for any other root the key is looked up.
pub proof fn law_proof_is_begun_as_asked(
    fetcher: StateFetcher,
    config: &ContractConfig,
    note: NotePublicKey,
    root: Field,
    depth: usize,
    source_account: &str,
    key: Result<Field, StateError>,
    r: Result<ProofStep, StateError>,
)
    requires
        call_ensures(StateFetcher::contract_config, (&fetcher,), config),
        call_ensures(Field::try_from_le_bytes, (note.0,), key),
        call_ensures(
            StateFetcher::get_nonmembership_proof,
            (&fetcher, &note, root, depth, source_account),
            r,
        ),
    ensures
        depth == 0 ==> r == Err::<ProofStep, StateError>(StateError::ZeroSmtDepth),
        depth > 0 ==> (key matches Err(e) ==> r == Err::<ProofStep, StateError>(e)),
        depth > 0 && root@ == 0 ==> (key matches Ok(key) ==> (r matches Ok(ProofStep::Done(proof))
            && {
            &&& proof.key == key
            &&& proof.old_key@ == 0
            &&& proof.old_value@ == 0
            &&& proof.is_old0
            &&& proof.root@ == 0
            &&& proof.siblings@.len() == depth
            &&& forall|i: int| 0 <= i < depth ==> (#[trigger] proof.siblings@[i])@ == 0
        })),
        depth > 0 && root@ != 0 ==> (key matches Ok(key) ==> {
            let account = account_key_of(source_account@);
            let contract = contract_hash_of(config.asp_non_membership@);
            &&& account is None ==> r == Err::<ProofStep, StateError>(
                StateError::InvalidSourceAccount,
            )
            &&& account is Some && contract is None ==> r == Err::<ProofStep, StateError>(
                StateError::InvalidContractId,
            )
            &&& account is Some && contract is Some ==> (r matches Ok(
                ProofStep::Simulate { pending, tx },
            ) && {
                &&& pending.key() == key@
                &&& pending.root() == root@
                &&& pending.depth() == depth
                &&& looks_up(tx, account->0, contract->0, key@)
            })
        }),
{
    lemma_find_key();
    if let Ok(ProofStep::Done(proof)) = r {
        if let Ok(key) = key {
            Field::lemma_view_injective(proof.key, key);
        }
        let siblings = proof.siblings@;
        assert(field_values(siblings).len() == siblings.len());
        assert forall|i: int| 0 <= i < depth implies (#[trigger] siblings[i])@ == 0 by {
            assert(field_values(siblings)[i] == siblings[i]@);
        }
    }
}

/// The value that a simulation returned is the one of its own result, or else of
/// the first of its results.
pub proof fn law_own_result_comes_before_the_first(
    sim: SimulationResponse,
    r: Result<&String, StateError>,
)
    requires
        call_ensures(StateFetcher::simulation_retval, (&sim,), r),
    ensures
        sim.result matches Some(OpResult { retval: Some(text) }) ==> (r matches Ok(t) && t@
            == text@),
        sim.result matches Some(OpResult { retval: None }) ==> r == Err::<&String, StateError>(
            StateError::MissingRetval,
        ),
        sim.result is None && sim.results@.len() == 0 ==> r == Err::<&String, StateError>(
            StateError::NoOpResults,
        ),
        sim.result is None && sim.results@.len() > 0 ==> (match sim.results@[0].retval {
            Some(text) => r matches Ok(t) && t@ == text@,
            None => r == Err::<&String, StateError>(StateError::MissingRetval),
        }),
{
}

/// A waiting proof is completed from the value that the simulation returned, as it
/// is from that value alone, for the key, the root and the depth that it was
/// begun with.
pub proof fn law_waiting_proof_is_completed_from_the_value(
    pending: PendingProof,
    sim: SimulationResponse,
    text: Result<&String, StateError>,
    returned: &str,
    val: Result<ContractValue, StateError>,
    key: Field,
    root: Field,
    depth: usize,
    direct: Result<AspNonMembershipProof, StateError>,
    r: Result<AspNonMembershipProof, StateError>,
)
    requires
        call_ensures(StateFetcher::simulation_retval, (&sim,), text),
        text matches Ok(t) ==> t@ == returned@,
        call_ensures(ContractValue::from_xdr_base64, (returned,), val),
        key@ == pending.key(),
        root@ == pending.root(),
        depth == pending.depth(),
        text is Ok ==> (val matches Ok(v) ==> call_ensures(
            StateFetcher::nonmembership_proof_from_lookup,
            (key, root, depth, &v),
            direct,
        )),
        call_ensures(StateFetcher::finish_nonmembership_proof, (pending, &sim), r),
    ensures
        text matches Err(e) ==> r == Err::<AspNonMembershipProof, StateError>(e),
        text is Ok ==> (val matches Err(e) ==> r == Err::<AspNonMembershipProof, StateError>(e)),
        text is Ok && val is Ok ==> match direct {
            Err(e) => r == Err::<AspNonMembershipProof, StateError>(e),
            Ok(p) => r matches Ok(q) && {
                &&& q.key == p.key
                &&& q.root == p.root
                &&& q.old_key == p.old_key
                &&& q.old_value == p.old_value
                &&& q.is_old0 == p.is_old0
                &&& q.siblings@ == p.siblings@
            },
        },
{
    if let (Ok(p), Ok(q)) = (direct, r) {
        if text is Ok && val is Ok {
            Field::lemma_view_injective(q.key, p.key);
            Field::lemma_view_injective(q.root, p.root);
            Field::lemma_view_injective(q.old_key, p.old_key);
            Field::lemma_view_injective(q.old_value, p.old_value);
            assert(field_values(p.siblings@).len() == p.siblings@.len());
            assert(field_values(q.siblings@).len() == q.siblings@.len());
            assert forall|i: int| 0 <= i < q.siblings@.len() implies q.siblings@[i]
                == p.siblings@[i] by {
                assert(field_values(p.siblings@)[i] == p.siblings@[i]@);
                assert(field_values(q.siblings@)[i] == q.siblings@[i]@);
                Field::lemma_view_injective(q.siblings@[i], p.siblings@[i]);
            }
            assert(q.siblings@ =~= p.siblings@);
        }
    }
}

} // verus!
