//! The result of a key lookup in the on-chain sparse Merkle tree.
use vstd::hash_map::StringHashMap;
use vstd::prelude::*;

use crate::contract_state::StateFetcher;
use crate::conversions::{element_error, kind_error, parts_nat, scval_to_bool, scval_to_field};
use crate::error::{first_of, StateError, ValueKind};
use crate::field::Field;
use crate::symbol::{symbol_text, symbol_text_of};
use crate::value::{
    entry_models, lemma_entry_models, lemma_models, models, ContractValue, TableEntry, ValueSpec,
};

verus! {

/// What a key lookup found.
#[derive(Debug, PartialEq, Eq)]
pub struct ParsedFindResult {
    pub found: bool,
    pub siblings: Vec<Field>,
    pub not_found_key: Field,
    pub not_found_value: Field,
    pub is_old0: bool,
}

/// The numbers that a sequence of field elements stands for.
pub open spec fn field_values(fields: Seq<Field>) -> Seq<nat> {
    Seq::new(fields.len(), |i: int| fields[i]@)
}

/// The text of the name of an entry, where it is a symbol in UTF-8.
pub open spec fn key_text(key: ValueSpec) -> Option<Seq<char>> {
    match key {
        ValueSpec::Symbol(bytes) => symbol_text_of(bytes),
        _ => None,
    }
}

/// The failure of reading the name of an entry, if it fails.
pub open spec fn key_error(key: ValueSpec) -> Option<StateError> {
    if !(key is Symbol) {
        Some(StateError::FindResultFieldName)
    } else if key_text(key) is None {
        Some(StateError::FindResultFieldText)
    } else {
        None
    }
}

/// The failure at the first entry whose name cannot be read, if there is one.
pub open spec fn keys_error(entries: Seq<(ValueSpec, ValueSpec)>) -> Option<StateError>
    decreases entries.len(),
{
    if entries.len() == 0 {
        None
    } else {
        first_of(keys_error(entries.drop_last()), key_error(entries.last().0))
    }
}

/// The value of the last entry of this name, if there is one.
pub open spec fn field_of(entries: Seq<(ValueSpec, ValueSpec)>, name: Seq<char>) -> Option<
    ValueSpec,
>
    decreases entries.len(),
{
    if entries.len() == 0 {
        None
    } else if key_text(entries.last().0) == Some(name) {
        Some(entries.last().1)
    } else {
        field_of(entries.drop_last(), name)
    }
}

/// The field of the first name, or else that of the second.
pub open spec fn field_or(
    entries: Seq<(ValueSpec, ValueSpec)>,
    name: Seq<char>,
    other: Seq<char>,
) -> Option<ValueSpec> {
    if field_of(entries, name) is Some {
        field_of(entries, name)
    } else {
        field_of(entries, other)
    }
}

/// The failure at the first of these values that is no field element, if there
/// is one.
pub open spec fn elements_error(items: Seq<ValueSpec>) -> Option<StateError>
    decreases items.len(),
{
    if items.len() == 0 {
        None
    } else {
        first_of(elements_error(items.drop_last()), element_error(items.last()))
    }
}

/// The failure of reading an optional field element, if it fails.
pub open spec fn optional_element_error(v: Option<ValueSpec>) -> Option<StateError> {
    match v {
        Some(v) => element_error(v),
        None => None,
    }
}

/// The number in an optional field element: zero where it is absent.
pub open spec fn optional_element(v: Option<ValueSpec>) -> nat {
    match v {
        Some(v) => parts_nat(v->U256_0),
        None => 0,
    }
}

/// The failure of reading the siblings, if it fails.
pub open spec fn siblings_error(v: Option<ValueSpec>) -> Option<StateError> {
    match v {
        Some(ValueSpec::List(Some(items))) => elements_error(items),
        Some(ValueSpec::List(None)) => None,
        Some(_) => Some(StateError::FindResultSiblings),
        None => None,
    }
}

/// The numbers in the siblings: none where they are absent.
pub open spec fn siblings_of(v: Option<ValueSpec>) -> Seq<nat> {
    match v {
        Some(ValueSpec::List(Some(items))) => Seq::new(
            items.len(),
            |i: int| parts_nat(items[i]->U256_0),
        ),
        _ => Seq::empty(),
    }
}

/// The failure of reading whether the key was found, if it fails.
pub open spec fn found_error(v: Option<ValueSpec>) -> Option<StateError> {
    match v {
        Some(v) => kind_error(v, ValueKind::Bool),
        None => Some(StateError::FindResultMissingFound),
    }
}

/// The failure of reading an optional flag, if it fails.
pub open spec fn optional_flag_error(v: Option<ValueSpec>) -> Option<StateError> {
    match v {
        Some(v) => kind_error(v, ValueKind::Bool),
        None => None,
    }
}

/// An optional flag: unset where it is absent.
pub open spec fn optional_flag(v: Option<ValueSpec>) -> bool {
    v == Some(ValueSpec::Bool(true))
}

/// The failure of reading a lookup result with these entries, if it fails.
pub open spec fn entries_error(entries: Seq<(ValueSpec, ValueSpec)>) -> Option<StateError> {
    first_of(
        keys_error(entries),
        first_of(
            found_error(field_of(entries, "found"@)),
            first_of(
                siblings_error(field_of(entries, "siblings"@)),
                first_of(
                    optional_element_error(field_or(entries, "not_found_key"@, "notFoundKey"@)),
                    first_of(
                        optional_element_error(
                            field_or(entries, "not_found_value"@, "notFoundValue"@),
                        ),
                        optional_flag_error(field_or(entries, "is_old0"@, "isOld0"@)),
                    ),
                ),
            ),
        ),
    )
}

/// The failure of reading a contract value as a lookup result, if it fails.
pub open spec fn find_result_error(v: ValueSpec) -> Option<StateError> {
    match v {
        ValueSpec::Table(Some(entries)) => entries_error(entries),
        _ => Some(StateError::FindResultNotTable),
    }
}

/// Whether `p` is what a readable lookup result says.
pub open spec fn is_find_result(p: ParsedFindResult, v: ValueSpec) -> bool {
    let entries = v->Table_0->0;
    &&& field_of(entries, "found"@) == Some(ValueSpec::Bool(p.found))
    &&& field_values(p.siblings@) == siblings_of(field_of(entries, "siblings"@))
    &&& p.not_found_key@ == optional_element(
        field_or(entries, "not_found_key"@, "notFoundKey"@),
    )
    &&& p.not_found_value@ == optional_element(
        field_or(entries, "not_found_value"@, "notFoundValue"@),
    )
    &&& p.is_old0 == optional_flag(field_or(entries, "is_old0"@, "isOld0"@))
}

/// Whether the name of this entry is the first one that cannot be read.
pub open spec fn is_first_unreadable(entries: Seq<(ValueSpec, ValueSpec)>, i: int) -> bool {
    &&& 0 <= i < entries.len()
    &&& key_error(entries[i].0) is Some
    &&& forall|j: int| #![trigger entries[j]] 0 <= j < i ==> key_error(entries[j].0) is None
}

/// The first entry whose name cannot be read, if there is one.
pub open spec fn first_unreadable(entries: Seq<(ValueSpec, ValueSpec)>) -> int {
    choose|i: int| is_first_unreadable(entries, i)
}

/// Whether this entry is the last one of this name.
pub open spec fn is_last_named(
    entries: Seq<(ValueSpec, ValueSpec)>,
    name: Seq<char>,
    i: int,
) -> bool {
    &&& 0 <= i < entries.len()
    &&& key_text(entries[i].0) == Some(name)
    &&& forall|j: int|
        #![trigger entries[j]]
        i < j < entries.len() ==> key_text(entries[j].0) != Some(name)
}

/// The names fail to be read as the first unreadable one does.
pub proof fn lemma_first_unreadable(entries: Seq<(ValueSpec, ValueSpec)>, i: int)
    requires
        is_first_unreadable(entries, i),
    ensures
        keys_error(entries) == key_error(entries[i].0),
        first_unreadable(entries) == i,
    decreases entries.len(),
{
    let k = first_unreadable(entries);
    assert(is_first_unreadable(entries, k));
    assert(!(k < i) && !(i < k)) by {
        assert(entries[k] == entries[k]);
        assert(entries[i] == entries[i]);
    }
    let init = entries.drop_last();
    if i < init.len() {
        assert forall|j: int| #![trigger init[j]] 0 <= j < i implies key_error(init[j].0)
            is None by {
            assert(init[j] == entries[j]);
        }
        assert(is_first_unreadable(init, i));
        lemma_first_unreadable(init, i);
    } else {
        assert forall|j: int| #![trigger init[j]] 0 <= j < init.len() implies key_error(init[j].0)
            is None by {
            assert(init[j] == entries[j]);
        }
        lemma_all_readable(init);
    }
}

/// Names that can all be read cause no failure.
pub proof fn lemma_all_readable(entries: Seq<(ValueSpec, ValueSpec)>)
    requires
        forall|j: int|
            #![trigger entries[j]]
            0 <= j < entries.len() ==> key_error(entries[j].0) is None,
    ensures
        keys_error(entries) is None,
    decreases entries.len(),
{
    if entries.len() > 0 {
        let init = entries.drop_last();
        assert forall|j: int| #![trigger init[j]] 0 <= j < init.len() implies key_error(init[j].0)
            is None by {
            assert(init[j] == entries[j]);
        }
        lemma_all_readable(init);
        assert(entries.last() == entries[entries.len() - 1]);
    }
}

/// The last entry of a name is the one whose value is found under the name.
pub proof fn lemma_last_named(
    entries: Seq<(ValueSpec, ValueSpec)>,
    name: Seq<char>,
    i: int,
)
    requires
        is_last_named(entries, name, i),
    ensures
        field_of(entries, name) == Some(entries[i].1),
    decreases entries.len(),
{
    let init = entries.drop_last();
    if i < init.len() {
        assert(entries.last() == entries[entries.len() - 1]);
        assert forall|j: int| #![trigger init[j]] i < j < init.len() implies key_text(init[j].0)
            != Some(name) by {
            assert(init[j] == entries[j]);
        }
        assert(is_last_named(init, name, i));
        lemma_last_named(init, name, i);
    }
}

/// Nothing is found under a name that no entry has.
pub proof fn lemma_not_named(entries: Seq<(ValueSpec, ValueSpec)>, name: Seq<char>)
    requires
        forall|j: int|
            #![trigger entries[j]]
            0 <= j < entries.len() ==> key_text(entries[j].0) != Some(name),
    ensures
        field_of(entries, name) is None,
    decreases entries.len(),
{
    if entries.len() > 0 {
        let init = entries.drop_last();
        assert forall|j: int| #![trigger init[j]] 0 <= j < init.len() implies key_text(init[j].0)
            != Some(name) by {
            assert(init[j] == entries[j]);
        }
        lemma_not_named(init, name);
        assert(entries.last() == entries[entries.len() - 1]);
    }
}

/// An item that is no field element is of another kind, or out of range.
pub proof fn lemma_elements_error(items: Seq<ValueSpec>)
    ensures
        elements_error(items) matches Some(e) ==> e is UnexpectedValue || e is FieldOutOfRange,
    decreases items.len(),
{
    if items.len() > 0 {
        lemma_elements_error(items.drop_last());
    }
}

/// The first entry of a table whose name cannot be read.
pub fn unreadable_key(table: &Vec<TableEntry>) -> (r: Option<usize>)
    ensures
        match r {
            Some(i) => is_first_unreadable(entry_models(table@), i as int),
            None => keys_error(entry_models(table@)) is None,
        },
{
    let ghost entries = entry_models(table@);
    proof {
        lemma_entry_models(table@);
    }
    for i in 0..table.len()
        invariant
            entries == entry_models(table@),
            entries.len() == table@.len(),
            forall|j: int|
                #![trigger table@[j]]
                0 <= j < entries.len() ==> entries[j] == (table@[j].key@, table@[j].val@),
            forall|j: int| #![trigger entries[j]] 0 <= j < i ==> key_error(entries[j].0) is None,
    {
        assert(entries[i as int] == (table@[i as int].key@, table@[i as int].val@));
        let readable = match &table[i].key {
            ContractValue::Symbol(bytes) => symbol_text(bytes.as_slice()).is_ok(),
            _ => false,
        };
        if !readable {
            return Some(i);
        }
    }
    proof {
        lemma_all_readable(entries);
    }
    None
}

/// The last entry of a table that has this name.
pub fn last_named(table: &Vec<TableEntry>, name: &str) -> (r: Option<usize>)
    ensures
        match r {
            Some(i) => is_last_named(entry_models(table@), name@, i as int),
            None => field_of(entry_models(table@), name@) is None,
        },
{
    let ghost entries = entry_models(table@);
    proof {
        lemma_entry_models(table@);
    }
    let wanted = name.to_string();
    let mut i: usize = table.len();
    while i > 0
        invariant
            wanted@ == name@,
            i <= table@.len(),
            entries == entry_models(table@),
            entries.len() == table@.len(),
            forall|j: int|
                #![trigger table@[j]]
                0 <= j < entries.len() ==> entries[j] == (table@[j].key@, table@[j].val@),
            forall|j: int|
                #![trigger entries[j]]
                i <= j < entries.len() ==> key_text(entries[j].0) != Some(name@),
        decreases i,
    {
        i = i - 1;
        assert(entries[i as int] == (table@[i as int].key@, table@[i as int].val@));
        let named = match &table[i].key {
            ContractValue::Symbol(bytes) => match symbol_text(bytes.as_slice()) {
                Ok(text) => text == wanted,
                Err(_) => false,
            },
            _ => false,
        };
        if named {
            return Some(i);
        }
    }
    proof {
        lemma_not_named(entries, name@);
    }
    None
}

/// A name that cannot be read stays so, whatever entries follow it.
proof fn lemma_keys_error_prefix(entries: Seq<(ValueSpec, ValueSpec)>, n: int)
    requires
        0 <= n <= entries.len(),
        keys_error(entries.take(n)) is Some,
    ensures
        keys_error(entries) == keys_error(entries.take(n)),
    decreases entries.len(),
{
    if n == entries.len() {
        assert(entries.take(n) =~= entries);
    } else {
        assert(entries.drop_last().take(n) =~= entries.take(n));
        lemma_keys_error_prefix(entries.drop_last(), n);
    }
}

/// An item that is no field element stays so, whatever items follow it.
proof fn lemma_elements_error_prefix(items: Seq<ValueSpec>, n: int)
    requires
        0 <= n <= items.len(),
        elements_error(items.take(n)) is Some,
    ensures
        elements_error(items) == elements_error(items.take(n)),
    decreases items.len(),
{
    if n == items.len() {
        assert(items.take(n) =~= items);
    } else {
        assert(items.drop_last().take(n) =~= items.take(n));
        lemma_elements_error_prefix(items.drop_last(), n);
    }
}

/// Reads a list of contract values as field elements.
fn scvals_to_fields(items: &Vec<ContractValue>) -> (r: Result<Vec<Field>, StateError>)
    ensures
        match r {
            Ok(fields) => elements_error(models(items@)) is None && field_values(fields@)
                == siblings_of(Some(ValueSpec::List(Some(models(items@))))),
            Err(e) => elements_error(models(items@)) == Some(e),
        },
{
    let ghost spec = models(items@);
    proof {
        lemma_models(items@);
    }
    let mut fields: Vec<Field> = Vec::new();
    for i in 0..items.len()
        invariant
            spec == models(items@),
            spec.len() == items@.len(),
            forall|j: int| 0 <= j < spec.len() ==> (#[trigger] items@[j])@ == spec[j],
            fields@.len() == i,
            elements_error(spec.take(i as int)) is None,
            forall|j: int|
                0 <= j < i ==> (#[trigger] fields@[j])@ == parts_nat(spec[j]->U256_0),
    {
        proof {
            assert(spec.take(i + 1).drop_last() =~= spec.take(i as int));
            assert(spec.take(i + 1).last() == items@[i as int]@);
        }
        match scval_to_field(&items[i]) {
            Ok(f) => fields.push(f),
            Err(e) => {
                proof {
                    lemma_elements_error_prefix(spec, i + 1);
                }
                return Err(e);
            },
        }
    }
    assert(spec.take(spec.len() as int) =~= spec);
    assert(field_values(fields@) =~= siblings_of(Some(ValueSpec::List(Some(spec)))));
    Ok(fields)
}

/// Reads an optional field element: zero where it is absent.
fn optional_field(v: Option<&ContractValue>) -> (r: Result<Field, StateError>)
    ensures
        ({
            let v = match v {
                Some(v) => Some(v@),
                None => None,
            };
            match r {
                Ok(f) => optional_element_error(v) is None && f@ == optional_element(v),
                Err(e) => optional_element_error(v) == Some(e),
            }
        }),
{
    match v {
        Some(v) => scval_to_field(v),
        None => Ok(Field::zero()),
    }
}

/// Looks a field up under its name, or else under another one.
fn get_either<'a>(
    fields: &StringHashMap<&'a ContractValue>,
    name: &str,
    other: &str,
) -> (r: Option<&'a ContractValue>)
    ensures
        r == (if fields@.contains_key(name@) {
            Some(fields@[name@])
        } else if fields@.contains_key(other@) {
            Some(fields@[other@])
        } else {
            None
        }),
{
    match fields.get(name) {
        Some(v) => Some(*v),
        None => match fields.get(other) {
            Some(v) => Some(*v),
            None => None,
        },
    }
}

impl StateFetcher {
    /// Reads the result of a key lookup. Of entries of one name the last one
    /// counts. The not-found key and value and the flag have a second name each,
    /// which counts where the first is absent.
    pub fn parse_find_result(val: &ContractValue) -> (r: Result<ParsedFindResult, StateError>)
        ensures
            match r {
                Ok(p) => find_result_error(val@) is None && is_find_result(p, val@),
                Err(e) => find_result_error(val@) == Some(e),
            },
    {
        let table = match val {
            ContractValue::Table(Some(table)) => table,
            _ => {
                return Err(StateError::FindResultNotTable);
            },
        };
        let ghost entries = val@->Table_0->0;
        proof {
            lemma_entry_models(table@);
        }

        let mut fields: StringHashMap<&ContractValue> = StringHashMap::new();
        for i in 0..table.len()
            invariant
                entries.len() == table@.len(),
                forall|j: int|
                    #![trigger table@[j]]
                    0 <= j < entries.len() ==> entries[j] == (table@[j].key@, table@[j].val@),
                keys_error(entries.take(i as int)) is None,
                forall|name: Seq<char>|
                    #![trigger fields@.contains_key(name)]
                    field_of(entries.take(i as int), name) == (if fields@.contains_key(name) {
                        Some(fields@[name]@)
                    } else {
                        None
                    }),
                val@ == ValueSpec::Table(Some(entries)),
        {
            let entry = &table[i];
            proof {
                assert(entries.take(i + 1).drop_last() =~= entries.take(i as int));
                assert(entries.take(i + 1).last() == (entry.key@, entry.val@));
            }
            let name = match &entry.key {
                ContractValue::Symbol(bytes) => match symbol_text(bytes.as_slice()) {
                    Ok(name) => name,
                    Err(_) => {
                        proof {
                            lemma_keys_error_prefix(entries, i + 1);
                        }
                        return Err(StateError::FindResultFieldText);
                    },
                },
                _ => {
                    proof {
                        lemma_keys_error_prefix(entries, i + 1);
                    }
                    return Err(StateError::FindResultFieldName);
                },
            };
            fields.insert(name, &entry.val);
        }
        assert(entries.take(entries.len() as int) =~= entries);

        let found = match fields.get("found") {
            Some(v) => scval_to_bool(*v)?,
            None => {
                return Err(StateError::FindResultMissingFound);
            },
        };

        let siblings = match fields.get("siblings") {
            Some(v) => match *v {
                ContractValue::List(Some(items)) => scvals_to_fields(items)?,
                ContractValue::List(None) => Vec::new(),
                _ => {
                    return Err(StateError::FindResultSiblings);
                },
            },
            None => Vec::new(),
        };

        let not_found_key = optional_field(get_either(&fields, "not_found_key", "notFoundKey"))?;
        let not_found_value = optional_field(
            get_either(&fields, "not_found_value", "notFoundValue"),
        )?;
        let is_old0 = match get_either(&fields, "is_old0", "isOld0") {
            Some(v) => scval_to_bool(v)?,
            None => false,
        };

        assert(field_values(siblings@) =~= siblings_of(field_of(entries, "siblings"@)));
        Ok(ParsedFindResult { found, siblings, not_found_key, not_found_value, is_old0 })
    }
}

} // verus!
