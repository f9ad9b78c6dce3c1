//! What holds of lookup results and of the proofs made from them.
use vstd::prelude::*;
use vstd::utf8::{
    decode_utf8_encode_utf8, encode_utf8, encode_utf8_decode_utf8, encode_utf8_valid_utf8,
    is_ascii_chars_encode_utf8, valid_utf8,
};

use crate::contract_state::StateFetcher;
use crate::conversions::element_error;
use crate::error::{StateError, ValueKind};
use crate::field::Field;
use crate::find_result::{
    elements_error, field_of, field_or, field_values, found_error, is_first_unreadable, key_error,
    key_text, keys_error, last_named, lemma_all_readable, lemma_first_unreadable, lemma_last_named,
    lemma_not_named, optional_element_error, optional_flag_error, siblings_error, unreadable_key,
    ParsedFindResult,
};
use crate::laws::numbers::{bn254_order, words_number};
use crate::laws::readers::{fails_at_the_first, fault_if, lemma_six};
use crate::types::AspNonMembershipProof;
use crate::value::{lemma_entry_models, ContractValue, TableEntry, UInt256Parts, ValueSpec};

verus! {

/// The entries of a table: keys and values.
pub type Entries = Seq<(ValueSpec, ValueSpec)>;

/// Whether a key is the symbol of this name.
pub open spec fn is_symbol(key: ValueSpec, name: Seq<char>) -> bool {
    key == ValueSpec::Symbol(encode_utf8(name))
}

/// Whether this entry is the last one under the symbol of this name.
pub open spec fn is_entry(entries: Entries, name: Seq<char>, i: int) -> bool {
    &&& 0 <= i < entries.len()
    &&& is_symbol(entries[i].0, name)
    &&& forall|j: int| i < j < entries.len() ==> !is_symbol((#[trigger] entries[j]).0, name)
}

/// Whether no entry is under the symbol of this name.
pub open spec fn has_no_entry(entries: Entries, name: Seq<char>) -> bool {
    forall|j: int| 0 <= j < entries.len() ==> !is_symbol((#[trigger] entries[j]).0, name)
}

/// The value of the last entry under the symbol of this name.
pub open spec fn held_under(entries: Entries, name: Seq<char>) -> Option<ValueSpec> {
    if has_no_entry(entries, name) {
        None
    } else {
        Some(entries[choose|i: int| is_entry(entries, name, i)].1)
    }
}

/// The value under the first name, or else the one under the second.
pub open spec fn held_under_either(entries: Entries, name: Seq<char>, other: Seq<char>) -> Option<
    ValueSpec,
> {
    match held_under(entries, name) {
        Some(v) => Some(v),
        None => held_under(entries, other),
    }
}

/// The fault of a name: it is to be a symbol in UTF-8.
pub open spec fn name_fault(key: ValueSpec) -> Option<StateError> {
    match key {
        ValueSpec::Symbol(bytes) => fault_if(
            !valid_utf8(bytes) || bytes.len() > u32::MAX,
            StateError::FindResultFieldText,
        ),
        _ => Some(StateError::FindResultFieldName),
    }
}

/// The fault of an element: it is to be a 256-bit number below the order.
pub open spec fn element_fault(v: ValueSpec) -> Option<StateError> {
    match v {
        ValueSpec::U256(p) => fault_if(
            words_number(p) >= bn254_order(),
            StateError::FieldOutOfRange,
        ),
        _ => Some(StateError::UnexpectedValue { expected: ValueKind::U256 }),
    }
}

/// The fault of a flag.
pub open spec fn flag_fault(v: ValueSpec) -> Option<StateError> {
    fault_if(!(v is Bool), StateError::UnexpectedValue { expected: ValueKind::Bool })
}

/// Whether this fault is the first one of a list.
pub open spec fn is_first_fault(faults: Seq<Option<StateError>>, i: int) -> bool {
    &&& 0 <= i < faults.len()
    &&& faults[i] is Some
    &&& forall|j: int| 0 <= j < i ==> (#[trigger] faults[j]) is None
}

/// The first fault of a list.
pub open spec fn first_fault(faults: Seq<Option<StateError>>) -> Option<StateError> {
    if exists|i: int| is_first_fault(faults, i) {
        faults[choose|i: int| is_first_fault(faults, i)]
    } else {
        None
    }
}

/// The faults of the siblings: they are to be a list of elements, if they are
/// there.
pub open spec fn siblings_fault(v: Option<ValueSpec>) -> Option<StateError> {
    match v {
        None => None,
        Some(ValueSpec::List(None)) => None,
        Some(ValueSpec::List(Some(items))) => first_fault(
            Seq::new(items.len(), |i: int| element_fault(items[i])),
        ),
        Some(_) => Some(StateError::FindResultSiblings),
    }
}

/// The fault of a field that may be absent.
pub open spec fn fault_where_held(
    v: Option<ValueSpec>,
    fault: spec_fn(ValueSpec) -> Option<StateError>,
) -> Option<StateError> {
    match v {
        Some(v) => fault(v),
        None => None,
    }
}

/// A key reads as a name exactly where it is the symbol of that name.
proof fn lemma_key_text(key: ValueSpec, name: Seq<char>)
    requires
        encode_utf8(name).len() <= u32::MAX,
    ensures
        key_text(key) == Some(name) <==> is_symbol(key, name),
{
    encode_utf8_valid_utf8(name);
    encode_utf8_decode_utf8(name);
    if key_text(key) == Some(name) {
        decode_utf8_encode_utf8(key->Symbol_0);
    }
}

/// The names of the fields are short.
proof fn lemma_names()
    ensures
        encode_utf8("found"@).len() <= u32::MAX,
        encode_utf8("siblings"@).len() <= u32::MAX,
        encode_utf8("not_found_key"@).len() <= u32::MAX,
        encode_utf8("notFoundKey"@).len() <= u32::MAX,
        encode_utf8("not_found_value"@).len() <= u32::MAX,
        encode_utf8("notFoundValue"@).len() <= u32::MAX,
        encode_utf8("is_old0"@).len() <= u32::MAX,
        encode_utf8("isOld0"@).len() <= u32::MAX,
{
    reveal_strlit("found");
    is_ascii_chars_encode_utf8("found"@);
    reveal_strlit("siblings");
    is_ascii_chars_encode_utf8("siblings"@);
    reveal_strlit("not_found_key");
    is_ascii_chars_encode_utf8("not_found_key"@);
    reveal_strlit("notFoundKey");
    is_ascii_chars_encode_utf8("notFoundKey"@);
    reveal_strlit("not_found_value");
    is_ascii_chars_encode_utf8("not_found_value"@);
    reveal_strlit("notFoundValue");
    is_ascii_chars_encode_utf8("notFoundValue"@);
    reveal_strlit("is_old0");
    is_ascii_chars_encode_utf8("is_old0"@);
    reveal_strlit("isOld0");
    is_ascii_chars_encode_utf8("isOld0"@);
}

/// Where some entry has a name, some entry is the last one with it.
proof fn lemma_last_entry(entries: Entries, name: Seq<char>)
    requires
        !has_no_entry(entries, name),
    ensures
        exists|i: int| is_entry(entries, name, i),
    decreases entries.len(),
{
    let k = choose|k: int|
        0 <= k < entries.len() && is_symbol((#[trigger] entries[k]).0, name);
    let last = entries.len() - 1;
    if is_symbol(entries[last].0, name) {
        assert(is_entry(entries, name, last));
    } else {
        let init = entries.drop_last();
        assert(init[k] == entries[k]);
        lemma_last_entry(init, name);
        let i = choose|i: int| is_entry(init, name, i);
        assert forall|j: int| i < j < entries.len() implies !is_symbol(
            (#[trigger] entries[j]).0,
            name,
        ) by {
            if j < last {
                assert(init[j] == entries[j]);
            }
        }
        assert(init[i] == entries[i]);
        assert(is_entry(entries, name, i));
    }
}

/// What is found under a name is what the last entry under it holds.
proof fn lemma_held_under(entries: Entries, name: Seq<char>)
    requires
        encode_utf8(name).len() <= u32::MAX,
    ensures
        field_of(entries, name) == held_under(entries, name),
        forall|i: int| #[trigger]
            is_entry(entries, name, i) ==> field_of(entries, name) == Some(entries[i].1),
        has_no_entry(entries, name) ==> field_of(entries, name) is None,
{
    assert forall|i: int| #[trigger] is_entry(entries, name, i) implies field_of(entries, name)
        == Some(entries[i].1) by {
        lemma_key_text(entries[i].0, name);
        assert forall|j: int| #![trigger entries[j]] i < j < entries.len() implies key_text(
            entries[j].0,
        ) != Some(name) by {
            lemma_key_text(entries[j].0, name);
        }
        lemma_last_named(entries, name, i);
    }
    if has_no_entry(entries, name) {
        assert forall|j: int| #![trigger entries[j]] 0 <= j < entries.len() implies key_text(
            entries[j].0,
        ) != Some(name) by {
            lemma_key_text(entries[j].0, name);
        }
        lemma_not_named(entries, name);
    } else {
        lemma_last_entry(entries, name);
    }
}

/// All the fields are found as they are held.
pub proof fn lemma_fields(entries: Entries)
    ensures
        field_of(entries, "found"@) == held_under(entries, "found"@),
        field_of(entries, "siblings"@) == held_under(entries, "siblings"@),
        field_of(entries, "not_found_key"@) == held_under(entries, "not_found_key"@),
        field_of(entries, "notFoundKey"@) == held_under(entries, "notFoundKey"@),
        field_of(entries, "not_found_value"@) == held_under(entries, "not_found_value"@),
        field_of(entries, "notFoundValue"@) == held_under(entries, "notFoundValue"@),
        field_of(entries, "is_old0"@) == held_under(entries, "is_old0"@),
        field_of(entries, "isOld0"@) == held_under(entries, "isOld0"@),
{
    lemma_names();
    lemma_held_under(entries, "found"@);
    lemma_held_under(entries, "siblings"@);
    lemma_held_under(entries, "not_found_key"@);
    lemma_held_under(entries, "notFoundKey"@);
    lemma_held_under(entries, "not_found_value"@);
    lemma_held_under(entries, "notFoundValue"@);
    lemma_held_under(entries, "is_old0"@);
    lemma_held_under(entries, "isOld0"@);
}

/// Where there is a fault, there is a first one.
proof fn lemma_first_fault(faults: Seq<Option<StateError>>, i: int)
    requires
        0 <= i < faults.len(),
        faults[i] is Some,
    ensures
        exists|k: int| is_first_fault(faults, k),
    decreases i,
{
    if is_first_fault(faults, i) {
    } else {
        let j = choose|j: int| 0 <= j < i && (#[trigger] faults[j]) is Some;
        lemma_first_fault(faults, j);
    }
}

/// The names fail to be read at the first fault.
proof fn lemma_names_fault(entries: Entries)
    ensures
        keys_error(entries) == first_fault(
            Seq::new(entries.len(), |i: int| name_fault(entries[i].0)),
        ),
{
    let faults = Seq::new(entries.len(), |i: int| name_fault(entries[i].0));
    assert forall|i: int| #![trigger entries[i]] 0 <= i < entries.len() implies faults[i]
        == key_error(entries[i].0) by {}
    if exists|i: int| is_first_fault(faults, i) {
        let k = choose|i: int| is_first_fault(faults, i);
        assert forall|j: int| #![trigger entries[j]] 0 <= j < k implies key_error(entries[j].0)
            is None by {
            assert(faults[j] is None);
        }
        assert(is_first_unreadable(entries, k));
        lemma_first_unreadable(entries, k);
    } else {
        assert forall|j: int| #![trigger entries[j]] 0 <= j < entries.len() implies key_error(
            entries[j].0,
        ) is None by {
            if faults[j] is Some {
                lemma_first_fault(faults, j);
            }
        }
        lemma_all_readable(entries);
    }
}

/// The elements of a list fail to be read at the first one at fault.
proof fn lemma_elements_at(items: Seq<ValueSpec>, i: int)
    requires
        0 <= i <= items.len(),
        forall|j: int| 0 <= j < i ==> element_error(#[trigger] items[j]) is None,
        i < items.len() ==> element_error(items[i]) is Some,
    ensures
        i < items.len() ==> elements_error(items) == element_error(items[i]),
        i == items.len() ==> elements_error(items) is None,
    decreases items.len(),
{
    if items.len() > 0 {
        let init = items.drop_last();
        assert forall|j: int| 0 <= j < init.len() && j < i implies element_error(
            #[trigger] init[j],
        ) is None by {
            assert(init[j] == items[j]);
        }
        if i < init.len() {
            assert(init[i] == items[i]);
            lemma_elements_at(init, i);
        } else {
            lemma_elements_at(init, init.len() as int);
        }
        assert(items.last() == items[items.len() - 1]);
    }
}

/// The elements of a list fail to be read at the first fault.
proof fn lemma_elements_fault(items: Seq<ValueSpec>)
    ensures
        elements_error(items) == first_fault(
            Seq::new(items.len(), |i: int| element_fault(items[i])),
        ),
{
    let faults = Seq::new(items.len(), |i: int| element_fault(items[i]));
    assert forall|i: int| 0 <= i < items.len() implies faults[i] == element_error(
        #[trigger] items[i],
    ) by {}
    if exists|i: int| is_first_fault(faults, i) {
        let k = choose|i: int| is_first_fault(faults, i);
        assert forall|j: int| 0 <= j < k implies element_error(#[trigger] items[j]) is None by {
            assert(faults[j] is None);
        }
        lemma_elements_at(items, k);
    } else {
        assert forall|j: int| 0 <= j < items.len() implies element_error(
            #[trigger] items[j],
        ) is None by {
            if faults[j] is Some {
                lemma_first_fault(faults, j);
            }
        }
        lemma_elements_at(items, items.len() as int);
    }
}

/// Where a list has no fault, each of its elements is one.
proof fn lemma_no_elements_error(items: Seq<ValueSpec>, i: int)
    requires
        elements_error(items) is None,
        0 <= i < items.len(),
    ensures
        items[i] matches ValueSpec::U256(p) && words_number(p) < bn254_order(),
    decreases items.len(),
{
    if i < items.len() - 1 {
        lemma_no_elements_error(items.drop_last(), i);
    }
}

/// What is reported of a lookup result is what its entries hold: of entries under
/// one symbol the last one, and of two symbols for a field the first.
#[verifier::spinoff_prover]
pub proof fn law_lookup_result_is_reported_as_it_is(
    val: ContractValue,
    entries: Entries,
    p: ParsedFindResult,
)
    requires
        val@ == ValueSpec::Table(Some(entries)),
        call_ensures(
            StateFetcher::parse_find_result,
            (&val,),
            Ok::<ParsedFindResult, StateError>(p),
        ),
    ensures
        held_under(entries, "found"@) == Some(ValueSpec::Bool(p.found)),
        match held_under_either(entries, "not_found_key"@, "notFoundKey"@) {
            Some(v) => v matches ValueSpec::U256(w) && p.not_found_key@ == words_number(w),
            None => p.not_found_key@ == 0,
        },
        match held_under_either(entries, "not_found_value"@, "notFoundValue"@) {
            Some(v) => v matches ValueSpec::U256(w) && p.not_found_value@ == words_number(w),
            None => p.not_found_value@ == 0,
        },
        match held_under_either(entries, "is_old0"@, "isOld0"@) {
            Some(v) => v == ValueSpec::Bool(p.is_old0),
            None => !p.is_old0,
        },
        match held_under(entries, "siblings"@) {
            Some(v) => match v {
                ValueSpec::List(Some(items)) => {
                    &&& p.siblings@.len() == items.len()
                    &&& forall|i: int|
                        #![trigger items[i]]
                        #![trigger p.siblings@[i]]
                        0 <= i < items.len() ==> (items[i] matches ValueSpec::U256(w)
                            && p.siblings@[i]@ == words_number(w))
                },
                ValueSpec::List(None) => p.siblings@.len() == 0,
                _ => false,
            },
            None => p.siblings@.len() == 0,
        },
{
    lemma_fields(entries);
    assert(field_values(p.siblings@).len() == p.siblings@.len());
    if let Some(ValueSpec::List(Some(items))) = held_under(entries, "siblings"@) {
        assert forall|i: int|
            #![trigger items[i]]
            #![trigger p.siblings@[i]]
            0 <= i < items.len() implies (items[i] matches ValueSpec::U256(w) && p.siblings@[i]@
            == words_number(w)) by {
            lemma_no_elements_error(items, i);
            assert(field_values(p.siblings@)[i] == p.siblings@[i]@);
        }
    }
}

/// The faults of a lookup result are the failures of reading it.
proof fn lemma_lookup_faults(entries: Entries)
    ensures
        keys_error(entries) == first_fault(
            Seq::new(entries.len(), |i: int| name_fault(entries[i].0)),
        ),
        found_error(field_of(entries, "found"@)) == (match held_under(entries, "found"@) {
            Some(v) => flag_fault(v),
            None => Some(StateError::FindResultMissingFound),
        }),
        siblings_error(field_of(entries, "siblings"@)) == siblings_fault(
            held_under(entries, "siblings"@),
        ),
        optional_element_error(field_or(entries, "not_found_key"@, "notFoundKey"@))
            == fault_where_held(
            held_under_either(entries, "not_found_key"@, "notFoundKey"@),
            |v: ValueSpec| element_fault(v),
        ),
        optional_element_error(field_or(entries, "not_found_value"@, "notFoundValue"@))
            == fault_where_held(
            held_under_either(entries, "not_found_value"@, "notFoundValue"@),
            |v: ValueSpec| element_fault(v),
        ),
        optional_flag_error(field_or(entries, "is_old0"@, "isOld0"@)) == fault_where_held(
            held_under_either(entries, "is_old0"@, "isOld0"@),
            |v: ValueSpec| flag_fault(v),
        ),
{
    lemma_fields(entries);
    lemma_names_fault(entries);
    if let Some(ValueSpec::List(Some(items))) = field_of(entries, "siblings"@) {
        lemma_elements_fault(items);
    }
}

/// A lookup result is read exactly where nothing is at fault with it, and the
/// first fault is the one that is told.
#[verifier::spinoff_prover]
pub proof fn law_lookup_result_fails_at_the_first_fault(
    val: ContractValue,
    r: Result<ParsedFindResult, StateError>,
)
    requires
        call_ensures(StateFetcher::parse_find_result, (&val,), r),
    ensures
        match val@ {
            ValueSpec::Table(Some(entries)) => fails_at_the_first(
                r,
                seq![
                    first_fault(Seq::new(entries.len(), |i: int| name_fault(entries[i].0))),
                    match held_under(entries, "found"@) {
                        Some(v) => flag_fault(v),
                        None => Some(StateError::FindResultMissingFound),
                    },
                    siblings_fault(held_under(entries, "siblings"@)),
                    fault_where_held(
                        held_under_either(entries, "not_found_key"@, "notFoundKey"@),
                        |v: ValueSpec| element_fault(v),
                    ),
                    fault_where_held(
                        held_under_either(entries, "not_found_value"@, "notFoundValue"@),
                        |v: ValueSpec| element_fault(v),
                    ),
                    fault_where_held(
                        held_under_either(entries, "is_old0"@, "isOld0"@),
                        |v: ValueSpec| flag_fault(v),
                    ),
                ],
            ),
            _ => r == Err::<ParsedFindResult, StateError>(StateError::FindResultNotTable),
        },
{
    if let ValueSpec::Table(Some(entries)) = val@ {
        lemma_lookup_faults(entries);
        lemma_six(
            r,
            first_fault(Seq::new(entries.len(), |i: int| name_fault(entries[i].0))),
            match held_under(entries, "found"@) {
                Some(v) => flag_fault(v),
                None => Some(StateError::FindResultMissingFound),
            },
            siblings_fault(held_under(entries, "siblings"@)),
            fault_where_held(
                held_under_either(entries, "not_found_key"@, "notFoundKey"@),
                |v: ValueSpec| element_fault(v),
            ),
            fault_where_held(
                held_under_either(entries, "not_found_value"@, "notFoundValue"@),
                |v: ValueSpec| element_fault(v),
            ),
            fault_where_held(
                held_under_either(entries, "is_old0"@, "isOld0"@),
                |v: ValueSpec| flag_fault(v),
            ),
        );
    }
}

/// The flag of a lookup result is the one that the last entry under its symbol
/// holds, set or not; the second symbol counts only without the first.
pub proof fn law_old_flag_is_what_the_entry_holds(
    val: ContractValue,
    entries: Entries,
    i: int,
    b: bool,
    p: ParsedFindResult,
)
    requires
        val@ == ValueSpec::Table(Some(entries)),
        is_entry(entries, "is_old0"@, i) || (has_no_entry(entries, "is_old0"@) && is_entry(
            entries,
            "isOld0"@,
            i,
        )),
        entries[i].1 == ValueSpec::Bool(b),
        call_ensures(
            StateFetcher::parse_find_result,
            (&val,),
            Ok::<ParsedFindResult, StateError>(p),
        ),
    ensures
        p.is_old0 == b,
{
    lemma_names();
    lemma_held_under(entries, "is_old0"@);
    lemma_held_under(entries, "isOld0"@);
}

/// Whether the key was found is what the last entry under its symbol holds.
pub proof fn law_found_is_what_the_entry_holds(
    val: ContractValue,
    entries: Entries,
    i: int,
    b: bool,
    p: ParsedFindResult,
)
    requires
        val@ == ValueSpec::Table(Some(entries)),
        is_entry(entries, "found"@, i),
        entries[i].1 == ValueSpec::Bool(b),
        call_ensures(
            StateFetcher::parse_find_result,
            (&val,),
            Ok::<ParsedFindResult, StateError>(p),
        ),
    ensures
        p.found == b,
{
    lemma_names();
    lemma_held_under(entries, "found"@);
}

/// The other leaf on the path of a proof has the key and the value that the
/// entries under their symbols hold, whatever the flag says.
pub proof fn law_proof_shows_the_leaf_that_was_found(
    key: Field,
    root: Field,
    depth: usize,
    val: ContractValue,
    entries: Entries,
    i: int,
    a: UInt256Parts,
    j: int,
    b: UInt256Parts,
    proof: AspNonMembershipProof,
)
    requires
        val@ == ValueSpec::Table(Some(entries)),
        is_entry(entries, "not_found_key"@, i) || (has_no_entry(entries, "not_found_key"@)
            && is_entry(entries, "notFoundKey"@, i)),
        entries[i].1 == ValueSpec::U256(a),
        is_entry(entries, "not_found_value"@, j) || (has_no_entry(entries, "not_found_value"@)
            && is_entry(entries, "notFoundValue"@, j)),
        entries[j].1 == ValueSpec::U256(b),
        call_ensures(
            StateFetcher::nonmembership_proof_from_lookup,
            (key, root, depth, &val),
            Ok::<AspNonMembershipProof, StateError>(proof),
        ),
    ensures
        proof.old_key@ == words_number(a),
        proof.old_value@ == words_number(b),
{
    lemma_names();
    lemma_held_under(entries, "not_found_key"@);
    lemma_held_under(entries, "notFoundKey"@);
    lemma_held_under(entries, "not_found_value"@);
    lemma_held_under(entries, "notFoundValue"@);
}

/// Where the entries name no other leaf, its key and its value are zero.
pub proof fn law_proof_without_a_leaf_shows_zero(
    key: Field,
    root: Field,
    depth: usize,
    val: ContractValue,
    entries: Entries,
    proof: AspNonMembershipProof,
)
    requires
        val@ == ValueSpec::Table(Some(entries)),
        call_ensures(
            StateFetcher::nonmembership_proof_from_lookup,
            (key, root, depth, &val),
            Ok::<AspNonMembershipProof, StateError>(proof),
        ),
    ensures
        has_no_entry(entries, "not_found_key"@) && has_no_entry(entries, "notFoundKey"@)
            ==> proof.old_key@ == 0,
        has_no_entry(entries, "not_found_value"@) && has_no_entry(entries, "notFoundValue"@)
            ==> proof.old_value@ == 0,
        has_no_entry(entries, "is_old0"@) && has_no_entry(entries, "isOld0"@) ==> !proof.is_old0,
        has_no_entry(entries, "siblings"@) ==> forall|i: int|
            0 <= i < depth ==> (#[trigger] proof.siblings@[i])@ == 0,
{
    lemma_names();
    lemma_held_under(entries, "not_found_key"@);
    lemma_held_under(entries, "notFoundKey"@);
    lemma_held_under(entries, "not_found_value"@);
    lemma_held_under(entries, "notFoundValue"@);
    lemma_held_under(entries, "is_old0"@);
    lemma_held_under(entries, "isOld0"@);
    lemma_held_under(entries, "siblings"@);
    assert(field_values(proof.siblings@).len() == proof.siblings@.len());
    assert forall|i: int|
        has_no_entry(entries, "siblings"@) && 0 <= i < depth implies (
    #[trigger] proof.siblings@[i])@ == 0 by {
        assert(field_values(proof.siblings@)[i] == proof.siblings@[i]@);
    }
}

/// A proof is made of the lookup result that it is read from: the leaf and the
/// flag as they are, as many siblings as there are levels, and zeros for those
/// that are not there. It fails as the reading fails, and where the key was
/// found.
#[verifier::spinoff_prover]
pub proof fn law_proof_is_made_of_the_lookup_result(
    key: Field,
    root: Field,
    depth: usize,
    val: ContractValue,
    parsed: Result<ParsedFindResult, StateError>,
    r: Result<AspNonMembershipProof, StateError>,
)
    requires
        call_ensures(StateFetcher::parse_find_result, (&val,), parsed),
        call_ensures(
            StateFetcher::nonmembership_proof_from_lookup,
            (key, root, depth, &val),
            r,
        ),
    ensures
        parsed matches Err(e) ==> r == Err::<AspNonMembershipProof, StateError>(e),
        parsed matches Ok(p) ==> (p.found ==> r == Err::<AspNonMembershipProof, StateError>(
            StateError::KeyExists,
        )),
        parsed matches Ok(p) ==> (!p.found ==> (r matches Ok(proof) && {
            &&& proof.key == key
            &&& proof.root == root
            &&& proof.old_key == p.not_found_key
            &&& proof.old_value == p.not_found_value
            &&& proof.is_old0 == p.is_old0
            &&& proof.siblings@.len() == depth
            &&& forall|i: int|
                #![trigger proof.siblings@[i]]
                0 <= i < depth ==> (if i < p.siblings@.len() {
                    proof.siblings@[i] == p.siblings@[i]
                } else {
                    proof.siblings@[i]@ == 0
                })
        })),
{
    if let Ok(p) = parsed {
        if let Ok(proof) = r {
            Field::lemma_view_injective(proof.key, key);
            Field::lemma_view_injective(proof.root, root);
            Field::lemma_view_injective(proof.old_key, p.not_found_key);
            Field::lemma_view_injective(proof.old_value, p.not_found_value);
            assert(field_values(proof.siblings@).len() == proof.siblings@.len());
            assert(field_values(p.siblings@).len() == p.siblings@.len());
            assert forall|i: int| #![trigger proof.siblings@[i]] 0 <= i < depth implies (if i
                < p.siblings@.len() {
                proof.siblings@[i] == p.siblings@[i]
            } else {
                proof.siblings@[i]@ == 0
            }) by {
                assert(field_values(proof.siblings@)[i] == proof.siblings@[i]@);
                if i < p.siblings@.len() {
                    assert(field_values(p.siblings@)[i] == p.siblings@[i]@);
                    Field::lemma_view_injective(proof.siblings@[i], p.siblings@[i]);
                }
            }
        }
    }
}

/// The first key at fault in a table is the one that is pointed at.
pub proof fn law_first_key_at_fault_is_pointed_at(table: Vec<TableEntry>, r: Option<usize>)
    requires
        call_ensures(unreadable_key, (&table,), r),
    ensures
        match r {
            Some(i) => {
                &&& i < table@.len()
                &&& name_fault(table@[i as int].key@) is Some
                &&& forall|j: int| 0 <= j < i ==> name_fault((#[trigger] table@[j]).key@) is None
            },
            None => forall|j: int|
                0 <= j < table@.len() ==> name_fault((#[trigger] table@[j]).key@) is None,
        },
{
    let entries = crate::value::entry_models(table@);
    lemma_entry_models(table@);
    match r {
        Some(i) => {
            assert(entries[i as int].0 == table@[i as int].key@);
            assert forall|j: int| 0 <= j < i implies name_fault(
                (#[trigger] table@[j]).key@,
            ) is None by {
                assert(key_error(entries[j].0) is None);
            }
        },
        None => {
            lemma_names_fault(entries);
            let faults = Seq::new(entries.len(), |i: int| name_fault(entries[i].0));
            assert forall|j: int| 0 <= j < table@.len() implies name_fault(
                (#[trigger] table@[j]).key@,
            ) is None by {
                assert(entries[j].0 == table@[j].key@);
                if faults[j] is Some {
                    lemma_first_fault(faults, j);
                }
            }
        },
    }
}

/// The last entry under the symbol of a name is the one that is pointed at.
pub proof fn law_last_entry_of_a_name_is_pointed_at(
    table: Vec<TableEntry>,
    name: &str,
    r: Option<usize>,
)
    requires
        encode_utf8(name@).len() <= u32::MAX,
        call_ensures(last_named, (&table, name), r),
    ensures
        match r {
            Some(i) => {
                &&& i < table@.len()
                &&& is_symbol(table@[i as int].key@, name@)
                &&& forall|j: int|
                    i < j < table@.len() ==> !is_symbol((#[trigger] table@[j]).key@, name@)
            },
            None => forall|j: int|
                0 <= j < table@.len() ==> !is_symbol((#[trigger] table@[j]).key@, name@),
        },
{
    let entries = crate::value::entry_models(table@);
    lemma_entry_models(table@);
    assert forall|j: int| 0 <= j < table@.len() implies (key_text(entries[j].0) == Some(name@)
        <==> is_symbol((#[trigger] table@[j]).key@, name@)) by {
        lemma_key_text(entries[j].0, name@);
    }
    if r is None {
        lemma_held_under(entries, name@);
        assert(has_no_entry(entries, name@));
        assert forall|j: int| 0 <= j < table@.len() implies !is_symbol(
            (#[trigger] table@[j]).key@,
            name@,
        ) by {
            assert(!is_symbol(entries[j].0, name@));
        }
    }
}

} // verus!
