//! What holds of the library as a whole.
pub mod calls;
pub mod lookups;
pub mod messages;
pub mod numbers;
pub mod readers;
pub mod values;

use vstd::prelude::*;
use vstd::utf8::decode_utf8_encode_utf8;

use crate::contract_state::{
    asp_membership_error, asp_membership_overflows, asp_nonmembership_error, is_asp_membership,
    is_asp_nonmembership, is_pool_info, pool_error, pool_overflows, root_index, root_index_error,
};
use crate::conversions::{element_error, parts_nat};
use crate::decimal::{decimal, digit};
use crate::error::StateError;
use crate::field::{field_order, range_error, Field};
use crate::find_result::{
    entries_error, field_of, field_values, find_result_error, is_find_result, key_error, key_text,
    keys_error, ParsedFindResult,
};
use crate::nonmembership::{
    fit, is_empty_tree_proof, is_lookup_proof, lookup_error, request_error, retval_text, says_found,
    simulation_error, SimulationResponse,
};
use crate::transaction::{is_find_key_call, TransactionEnvelope};
use crate::types::{AspMembership, AspNonMembership, AspNonMembershipProof, PoolInfo};
use crate::uint::{be_nat, le_nat, lemma_be_nat_injective, U256};
use crate::value::{scval_of_base64, UInt256Parts, ValueSpec};

verus! {

/// Two 256-bit numbers with the same bytes are the same: a number survives
/// being written to bytes and read back.
pub proof fn law_u256_survives_its_bytes(written: U256, bytes: Seq<u8>, read: U256)
    requires
        be_nat(bytes) == written@,
        read@ == be_nat(bytes),
    ensures
        read == written,
{
}

/// A field element survives being made a contract value: what is read back from
/// the value is an element again, and the same one. No other words write it.
pub proof fn law_field_survives_contract_value(written: Field, parts: UInt256Parts, read: Field)
    requires
        written@ < field_order(),
        parts_nat(parts) == written@,
        read@ == parts_nat(parts),
    ensures
        element_error(ValueSpec::U256(parts)) is None,
        read == written,
        forall|other: UInt256Parts| #[trigger]
            parts_nat(other) == written@ ==> other == parts,
{
    Field::lemma_view_injective(read, written);
}

/// Different note keys are different elements.
pub proof fn law_note_keys_are_distinct(a: Seq<u8>, b: Seq<u8>)
    requires
        a.len() == b.len(),
        le_nat(a) == le_nat(b),
    ensures
        a == b,
{
    lemma_be_nat_injective(a.reverse(), b.reverse());
    assert forall|i: int| 0 <= i < a.len() implies a[i] == b[i] by {
        assert(a.reverse()[a.len() - 1 - i] == b.reverse()[a.len() - 1 - i]);
    }
    assert(a =~= b);
}

/// Two lookups carry the same argument only if they look the same note key up.
pub proof fn law_lookups_are_distinct(
    tx_a: TransactionEnvelope,
    tx_b: TransactionEnvelope,
    a: Seq<u8>,
    b: Seq<u8>,
    source_a: Seq<char>,
    source_b: Seq<char>,
    contract_a: Seq<char>,
    contract_b: Seq<char>,
)
    requires
        a.len() == b.len(),
        is_find_key_call(tx_a, source_a, contract_a, le_nat(a)),
        is_find_key_call(tx_b, source_b, contract_b, le_nat(b)),
        tx_a.tx.operations@[0].body.host_function.args@[0]@
            == tx_b.tx.operations@[0].body.host_function.args@[0]@,
    ensures
        a == b,
{
    law_note_keys_are_distinct(a, b);
}

/// A proof has exactly as many siblings as the tree has levels: the first ones
/// that the lookup gave, and zeros for those that it did not give.
pub proof fn law_proof_has_one_sibling_per_level(siblings: Seq<nat>, depth: nat)
    ensures
        fit(siblings, depth).len() == depth,
        forall|i: int|
            0 <= i < depth && i < siblings.len() ==> #[trigger] fit(siblings, depth)[i]
                == siblings[i],
        forall|i: int|
            siblings.len() <= i < depth ==> #[trigger] fit(siblings, depth)[i] == 0,
        fit(fit(siblings, depth), depth) == fit(siblings, depth),
        siblings.len() == depth ==> fit(siblings, depth) == siblings,
{
    assert(fit(fit(siblings, depth), depth) =~= fit(siblings, depth));
    if siblings.len() == depth {
        assert(fit(siblings, depth) =~= siblings);
    }
}

/// Whichever way a proof comes about, it is for the key and the root that were
/// asked about, and its path has the depth that was asked for.
pub proof fn law_proof_is_for_the_request(
    proof: AspNonMembershipProof,
    key: nat,
    root: nat,
    depth: nat,
    retval: ValueSpec,
)
    requires
        (root == 0 && is_empty_tree_proof(proof, key, depth)) || is_lookup_proof(
            proof,
            key,
            root,
            depth,
            retval,
        ),
    ensures
        proof.key@ == key,
        proof.root@ == root,
        proof.siblings@.len() == depth,
{
    assert(field_values(proof.siblings@).len() == proof.siblings@.len());
}

/// Two proofs of one request that differ only in the depth agree on all but the
/// siblings, and the siblings of the shallower one begin those of the deeper
/// one.
pub proof fn law_depth_changes_only_the_siblings(
    shallow: AspNonMembershipProof,
    deep: AspNonMembershipProof,
    key: nat,
    root: nat,
    shallow_depth: nat,
    deep_depth: nat,
    retval: ValueSpec,
)
    requires
        shallow_depth <= deep_depth,
        (is_empty_tree_proof(shallow, key, shallow_depth) && is_empty_tree_proof(
            deep,
            key,
            deep_depth,
        )) || (is_lookup_proof(shallow, key, root, shallow_depth, retval) && is_lookup_proof(
            deep,
            key,
            root,
            deep_depth,
            retval,
        )),
    ensures
        shallow.key == deep.key,
        shallow.old_key == deep.old_key,
        shallow.old_value == deep.old_value,
        shallow.is_old0 == deep.is_old0,
        shallow.root == deep.root,
        shallow.siblings@.is_prefix_of(deep.siblings@),
{
    Field::lemma_view_injective(shallow.key, deep.key);
    Field::lemma_view_injective(shallow.old_key, deep.old_key);
    Field::lemma_view_injective(shallow.old_value, deep.old_value);
    Field::lemma_view_injective(shallow.root, deep.root);
    let a = shallow.siblings@;
    let b = deep.siblings@;
    assert(field_values(a).len() == a.len());
    assert(field_values(b).len() == b.len());
    assert forall|i: int| 0 <= i < a.len() implies a[i] == b[i] by {
        assert(field_values(a)[i] == a[i]@);
        assert(field_values(b)[i] == b[i]@);
        Field::lemma_view_injective(a[i], b[i]);
    }
    assert(a =~= b.take(a.len() as int));
}

/// The tree whose root is zero holds nothing: for any key that is an element,
/// and any depth, the request succeeds, whatever the addresses are.
pub proof fn law_empty_tree_always_has_a_proof(
    note_pubkey: Seq<u8>,
    depth: nat,
    source_account: Seq<char>,
    contract_id: Seq<char>,
)
    requires
        depth > 0,
        range_error(le_nat(note_pubkey)) is None,
    ensures
        request_error(note_pubkey, 0, depth, source_account, contract_id) is None,
{
}

/// No proof is made for a key that the lookup found, and a readable lookup
/// result fails for no other reason.
pub proof fn law_no_proof_for_a_key_in_the_tree(retval: ValueSpec)
    requires
        find_result_error(retval) is None,
    ensures
        says_found(retval) ==> lookup_error(retval) == Some(StateError::KeyExists),
        !says_found(retval) ==> lookup_error(retval) is None,
{
}

/// A proof is completed from a simulation only where the lookup returned a
/// readable result that says that the key is not in the tree.
pub proof fn law_completed_proof_means_not_found(sim: SimulationResponse)
    requires
        simulation_error(sim) is None,
    ensures
        scval_of_base64(retval_text(sim)) matches Ok(v) && find_result_error(v) is None
            && field_of(v->Table_0->0, "found"@) == Some(ValueSpec::Bool(false)),
{
}

/// An entry of another name does not change what is found under a name.
proof fn lemma_extra_entry(
    before: Seq<(ValueSpec, ValueSpec)>,
    extra: (ValueSpec, ValueSpec),
    after: Seq<(ValueSpec, ValueSpec)>,
    name: Seq<char>,
)
    requires
        key_text(extra.0) != Some(name),
    ensures
        field_of(before.push(extra) + after, name) == field_of(before + after, name),
    decreases after.len(),
{
    let with = before.push(extra) + after;
    let without = before + after;
    if after.len() == 0 {
        assert(with.drop_last() =~= without);
    } else {
        lemma_extra_entry(before, extra, after.drop_last(), name);
        assert(with.drop_last() =~= before.push(extra) + after.drop_last());
        assert(without.drop_last() =~= before + after.drop_last());
    }
}

/// An entry whose name can be read causes no failure.
proof fn lemma_extra_key(
    before: Seq<(ValueSpec, ValueSpec)>,
    extra: (ValueSpec, ValueSpec),
    after: Seq<(ValueSpec, ValueSpec)>,
)
    requires
        key_error(extra.0) is None,
    ensures
        keys_error(before.push(extra) + after) == keys_error(before + after),
    decreases after.len(),
{
    let with = before.push(extra) + after;
    let without = before + after;
    if after.len() == 0 {
        assert(with.drop_last() =~= without);
    } else {
        lemma_extra_key(before, extra, after.drop_last());
        assert(with.drop_last() =~= before.push(extra) + after.drop_last());
        assert(without.drop_last() =~= before + after.drop_last());
    }
}

/// Whether a name is one that a lookup result is read by.
pub open spec fn is_field_name(name: Seq<char>) -> bool {
    ||| name == "found"@
    ||| name == "siblings"@
    ||| name == "not_found_key"@
    ||| name == "notFoundKey"@
    ||| name == "not_found_value"@
    ||| name == "notFoundValue"@
    ||| name == "is_old0"@
    ||| name == "isOld0"@
}

/// An entry under any other name, wherever it stands, changes nothing about a
/// lookup result.
pub proof fn law_other_fields_do_not_count(
    before: Seq<(ValueSpec, ValueSpec)>,
    extra: (ValueSpec, ValueSpec),
    after: Seq<(ValueSpec, ValueSpec)>,
    parsed: ParsedFindResult,
)
    requires
        key_text(extra.0) matches Some(name) && !is_field_name(name),
    ensures
        entries_error(before.push(extra) + after) == entries_error(before + after),
        is_find_result(parsed, ValueSpec::Table(Some(before.push(extra) + after)))
            == is_find_result(parsed, ValueSpec::Table(Some(before + after))),
{
    lemma_extra_key(before, extra, after);
    lemma_extra_entry(before, extra, after, "found"@);
    lemma_extra_entry(before, extra, after, "siblings"@);
    lemma_extra_entry(before, extra, after, "not_found_key"@);
    lemma_extra_entry(before, extra, after, "notFoundKey"@);
    lemma_extra_entry(before, extra, after, "not_found_value"@);
    lemma_extra_entry(before, extra, after, "notFoundValue"@);
    lemma_extra_entry(before, extra, after, "is_old0"@);
    lemma_extra_entry(before, extra, after, "isOld0"@);
}

/// Of two entries of one name the later one counts.
pub proof fn law_later_field_counts(
    before: Seq<(ValueSpec, ValueSpec)>,
    entry: (ValueSpec, ValueSpec),
    after: Seq<(ValueSpec, ValueSpec)>,
    name: Seq<char>,
)
    requires
        key_text(entry.0) == Some(name),
        forall|i: int| 0 <= i < after.len() ==> key_text((#[trigger] after[i]).0) != Some(name),
    ensures
        field_of(before.push(entry) + after, name) == Some(entry.1),
    decreases after.len(),
{
    let entries = before.push(entry) + after;
    if after.len() == 0 {
        assert(entries =~= before.push(entry));
    } else {
        law_later_field_counts(before, entry, after.drop_last(), name);
        assert(entries.drop_last() =~= before.push(entry) + after.drop_last());
        assert(after.last() == after[after.len() - 1]);
    }
}

/// What is found under a name is the value of an entry of that name, and nothing
/// is found only where no entry has it.
proof fn lemma_field_of(entries: Seq<(ValueSpec, ValueSpec)>, name: Seq<char>)
    ensures
        match field_of(entries, name) {
            Some(v) => exists|k: int|
                #![trigger entries[k]]
                0 <= k < entries.len() && key_text(entries[k].0) == Some(name) && entries[k].1 == v,
            None => forall|k: int|
                #![trigger entries[k]]
                0 <= k < entries.len() ==> key_text(entries[k].0) != Some(name),
        },
    decreases entries.len(),
{
    if entries.len() > 0 {
        let init = entries.drop_last();
        lemma_field_of(init, name);
        assert(entries.last() == entries[entries.len() - 1]);
        assert forall|k: int| #![trigger entries[k]] 0 <= k < init.len() implies entries[k]
            == init[k] by {}
        assert forall|k: int| #![trigger init[k]] 0 <= k < init.len() implies init[k]
            == entries[k] by {}
    }
}

/// The failure of reading the names is the failure of one of them.
proof fn lemma_keys_error(entries: Seq<(ValueSpec, ValueSpec)>)
    ensures
        match keys_error(entries) {
            Some(e) => exists|k: int|
                #![trigger entries[k]]
                0 <= k < entries.len() && key_error(entries[k].0) == Some(e),
            None => forall|k: int|
                #![trigger entries[k]]
                0 <= k < entries.len() ==> key_error(entries[k].0) is None,
        },
    decreases entries.len(),
{
    if entries.len() > 0 {
        let init = entries.drop_last();
        lemma_keys_error(init);
        assert(entries.last() == entries[entries.len() - 1]);
        assert forall|k: int| #![trigger entries[k]] 0 <= k < init.len() implies entries[k]
            == init[k] by {}
        assert forall|k: int| #![trigger init[k]] 0 <= k < init.len() implies init[k]
            == entries[k] by {}
    }
}

/// Every entry of one order stands somewhere in the other.
proof fn lemma_same_entries(a: Seq<(ValueSpec, ValueSpec)>, b: Seq<(ValueSpec, ValueSpec)>, i: int)
    requires
        a.to_multiset() == b.to_multiset(),
        0 <= i < a.len(),
    ensures
        exists|k: int| #![trigger b[k]] 0 <= k < b.len() && b[k] == a[i],
{
    broadcast use vstd::seq_lib::group_to_multiset_ensures;

    assert(a.contains(a[i]));
    assert(a.to_multiset().count(a[i]) > 0);
    assert(b.contains(a[i]));
}

/// Whether no two entries have the same key.
pub open spec fn distinct_keys(entries: Seq<(ValueSpec, ValueSpec)>) -> bool {
    forall|i: int, j: int|
        #![trigger entries[i], entries[j]]
        0 <= i < j < entries.len() ==> entries[i].0 != entries[j].0
}

/// Whether all names that cannot be read fail for the same reason.
pub open spec fn one_key_error(entries: Seq<(ValueSpec, ValueSpec)>) -> bool {
    forall|i: int, j: int|
        #![trigger entries[i], entries[j]]
        0 <= i < entries.len() && 0 <= j < entries.len() && key_error(entries[i].0) is Some
            && key_error(entries[j].0) is Some ==> key_error(entries[i].0) == key_error(
            entries[j].0,
        )
}

/// Two keys that read as the same name are the same key.
proof fn lemma_key_text_injective(a: ValueSpec, b: ValueSpec)
    requires
        key_text(a) is Some,
        key_text(a) == key_text(b),
    ensures
        a == b,
{
    decode_utf8_encode_utf8(a->Symbol_0);
    decode_utf8_encode_utf8(b->Symbol_0);
}

/// Where the keys are distinct, what is found under a name does not depend on
/// the order of the entries.
proof fn lemma_field_of_any_order(
    a: Seq<(ValueSpec, ValueSpec)>,
    b: Seq<(ValueSpec, ValueSpec)>,
    name: Seq<char>,
)
    requires
        a.to_multiset() == b.to_multiset(),
        distinct_keys(a),
    ensures
        field_of(a, name) == field_of(b, name),
{
    lemma_field_of(a, name);
    lemma_field_of(b, name);
    if field_of(a, name) is Some {
        let i = choose|i: int|
            #![trigger a[i]]
            0 <= i < a.len() && key_text(a[i].0) == Some(name) && a[i].1 == field_of(a, name)->0;
        lemma_same_entries(a, b, i);
    }
    if field_of(b, name) is Some {
        let k = choose|k: int|
            #![trigger b[k]]
            0 <= k < b.len() && key_text(b[k].0) == Some(name) && b[k].1 == field_of(b, name)->0;
        lemma_same_entries(b, a, k);
        let m = choose|m: int| #![trigger a[m]] 0 <= m < a.len() && a[m] == b[k];
        let i = choose|i: int|
            #![trigger a[i]]
            0 <= i < a.len() && key_text(a[i].0) == Some(name) && a[i].1 == field_of(a, name)->0;
        lemma_key_text_injective(a[i].0, a[m].0);
    }
}

/// The order of the entries of a lookup result does not matter where its keys
/// are distinct: it is readable or not, and reads the same, in any order. The
/// failure is the same too, unless two names fail for different reasons: of
/// those the first one counts.
pub proof fn law_order_of_entries_does_not_count(
    a: Seq<(ValueSpec, ValueSpec)>,
    b: Seq<(ValueSpec, ValueSpec)>,
    parsed: ParsedFindResult,
)
    requires
        a.to_multiset() == b.to_multiset(),
        distinct_keys(a),
    ensures
        entries_error(a) is None <==> entries_error(b) is None,
        one_key_error(a) ==> entries_error(a) == entries_error(b),
        is_find_result(parsed, ValueSpec::Table(Some(a))) == is_find_result(
            parsed,
            ValueSpec::Table(Some(b)),
        ),
{
    lemma_field_of_any_order(a, b, "found"@);
    lemma_field_of_any_order(a, b, "siblings"@);
    lemma_field_of_any_order(a, b, "not_found_key"@);
    lemma_field_of_any_order(a, b, "notFoundKey"@);
    lemma_field_of_any_order(a, b, "not_found_value"@);
    lemma_field_of_any_order(a, b, "notFoundValue"@);
    lemma_field_of_any_order(a, b, "is_old0"@);
    lemma_field_of_any_order(a, b, "isOld0"@);
    lemma_keys_error(a);
    lemma_keys_error(b);
    if keys_error(a) is Some {
        let i = choose|i: int|
            #![trigger a[i]]
            0 <= i < a.len() && key_error(a[i].0) == keys_error(a);
        lemma_same_entries(a, b, i);
    }
    if keys_error(b) is Some {
        let k = choose|k: int|
            #![trigger b[k]]
            0 <= k < b.len() && key_error(b[k].0) == keys_error(b);
        lemma_same_entries(b, a, k);
    }
}

/// Whether two states of a contract hold the same under all of these keys.
pub open spec fn agree_on(
    a: Map<Seq<char>, ValueSpec>,
    b: Map<Seq<char>, ValueSpec>,
    keys: Seq<&'static str>,
) -> bool {
    forall|i: int|
        #![trigger keys[i]]
        0 <= i < keys.len() ==> a.contains_key(keys[i]@) == b.contains_key(keys[i]@)
            && a[keys[i]@] == b[keys[i]@]
}

/// What is read of the pool is what was asked of it: states that agree on the
/// keys of the queries read the same, and lead to the same second query.
pub proof fn law_pool_reads_what_it_asks_for(
    a: Map<Seq<char>, ValueSpec>,
    b: Map<Seq<char>, ValueSpec>,
    keys: Seq<&'static str>,
    root_a: Map<Seq<char>, ValueSpec>,
    root_b: Map<Seq<char>, ValueSpec>,
    root_keys: Seq<&'static str>,
    contract: String,
    ledger: u32,
    info: PoolInfo,
)
    requires
        keys == seq![
            "Admin",
            "Token",
            "Verifier",
            "ASPMembership",
            "ASPNonMembership",
            "Levels",
            "CurrentRootIndex",
            "NextIndex",
            "MaximumDepositAmount",
        ],
        agree_on(a, b, keys),
        root_keys == seq!["Root"],
        agree_on(root_a, root_b, root_keys),
    ensures
        root_index_error(a) == root_index_error(b),
        root_index(a) == root_index(b),
        pool_overflows(a, root_a, contract) == pool_overflows(b, root_b, contract),
        pool_error(a, root_a, contract) == pool_error(b, root_b, contract),
        is_pool_info(info, ledger, contract, a, root_a) == is_pool_info(
            info,
            ledger,
            contract,
            b,
            root_b,
        ),
{
    assert(keys[0] == "Admin");
    assert(keys[1] == "Token");
    assert(keys[2] == "Verifier");
    assert(keys[3] == "ASPMembership");
    assert(keys[4] == "ASPNonMembership");
    assert(keys[5] == "Levels");
    assert(keys[6] == "CurrentRootIndex");
    assert(keys[7] == "NextIndex");
    assert(keys[8] == "MaximumDepositAmount");
    assert(root_keys[0] == "Root");
}

/// Without an index of a current root, nothing is read of the root, and none is
/// reported.
pub proof fn law_pool_without_index_reads_no_root(
    pool_state: Map<Seq<char>, ValueSpec>,
    root_a: Map<Seq<char>, ValueSpec>,
    root_b: Map<Seq<char>, ValueSpec>,
    contract: String,
    ledger: u32,
    info: PoolInfo,
)
    requires
        !pool_state.contains_key("CurrentRootIndex"@),
    ensures
        pool_error(pool_state, root_a, contract) == pool_error(pool_state, root_b, contract),
        is_pool_info(info, ledger, contract, pool_state, root_a) == is_pool_info(
            info,
            ledger,
            contract,
            pool_state,
            root_b,
        ),
        is_pool_info(info, ledger, contract, pool_state, root_a) ==> info.merkle_root is None,
{
}

/// What is read of the membership contract is what was asked of it.
pub proof fn law_asp_membership_reads_what_it_asks_for(
    a: Map<Seq<char>, ValueSpec>,
    b: Map<Seq<char>, ValueSpec>,
    keys: Seq<&'static str>,
    contract: String,
    ledger: u32,
    info: AspMembership,
)
    requires
        keys == seq!["Root", "Levels", "NextIndex", "Admin", "AdminInsertOnly"],
        agree_on(a, b, keys),
    ensures
        asp_membership_overflows(a, contract) == asp_membership_overflows(b, contract),
        asp_membership_error(a, contract) == asp_membership_error(b, contract),
        is_asp_membership(info, ledger, contract, a) == is_asp_membership(
            info,
            ledger,
            contract,
            b,
        ),
{
    assert(keys[0] == "Root");
    assert(keys[1] == "Levels");
    assert(keys[2] == "NextIndex");
    assert(keys[3] == "Admin");
    assert(keys[4] == "AdminInsertOnly");
}

/// What is read of the non-membership contract is what was asked of it.
pub proof fn law_asp_nonmembership_reads_what_it_asks_for(
    a: Map<Seq<char>, ValueSpec>,
    b: Map<Seq<char>, ValueSpec>,
    keys: Seq<&'static str>,
    contract: String,
    ledger: u32,
    info: AspNonMembership,
)
    requires
        keys == seq!["Root", "Admin"],
        agree_on(a, b, keys),
    ensures
        asp_nonmembership_error(a, contract) == asp_nonmembership_error(b, contract),
        is_asp_nonmembership(info, ledger, contract, a) == is_asp_nonmembership(
            info,
            ledger,
            contract,
            b,
        ),
{
    assert(keys[0] == "Root");
    assert(keys[1] == "Admin");
}

/// The pool reports as many commitments as its next free index says.
pub proof fn law_total_commitments_is_the_next_index(
    info: PoolInfo,
    pool_state: Map<Seq<char>, ValueSpec>,
    root_state: Map<Seq<char>, ValueSpec>,
    contract: String,
    ledger: u32,
)
    requires
        is_pool_info(info, ledger, contract, pool_state, root_state),
    ensures
        info.total_commitments@ == info.merkle_next_index@,
{
}

/// The membership contract reports as many used slots as its next free index
/// says.
pub proof fn law_used_slots_is_the_next_index(
    info: AspMembership,
    data: Map<Seq<char>, ValueSpec>,
    contract: String,
    ledger: u32,
)
    requires
        is_asp_membership(info, ledger, contract, data),
    ensures
        info.used_slots@ == info.next_index@,
{
}

/// The non-membership tree is reported empty exactly when its root is zero.
pub proof fn law_empty_means_zero_root(
    info: AspNonMembership,
    data: Map<Seq<char>, ValueSpec>,
    contract: String,
    ledger: u32,
)
    requires
        is_asp_nonmembership(info, ledger, contract, data),
    ensures
        info.is_empty == (info.root@ == 0),
{
}

/// Different numbers have different decimal texts.
pub proof fn law_decimal_text_tells_the_number(a: nat, b: nat)
    requires
        decimal(a) == decimal(b),
    ensures
        a == b,
    decreases a,
{
    lemma_decimal_len(a);
    lemma_decimal_len(b);
    assert(digit(a % 10) as int == 48 + a % 10);
    assert(digit(b % 10) as int == 48 + b % 10);
    assert(decimal(a).last() == digit(a % 10));
    assert(decimal(b).last() == digit(b % 10));
    if a >= 10 && b >= 10 {
        let x = decimal(a / 10);
        let y = decimal(b / 10);
        assert(decimal(a).drop_last() =~= x);
        assert(decimal(b).drop_last() =~= y);
        law_decimal_text_tells_the_number(a / 10, b / 10);
    }
}

/// Only a single digit has a text of one character.
proof fn lemma_decimal_len(n: nat)
    ensures
        decimal(n).len() >= 1,
        (decimal(n).len() == 1) == (n < 10),
    decreases n,
{
    if n >= 10 {
        lemma_decimal_len(n / 10);
    }
}

} // verus!
