//! Contract values: the dynamically typed values that a contract stores and
//! returns.
use stellar_xdr::curr as xdr;
use stellar_xdr::curr::{ReadXdr, ScVal};
use vstd::prelude::*;

use crate::error::StateError;

verus! {

/// A 256-bit unsigned integer in the four words of its XDR form, most
/// significant word first.
#[derive(Clone, Copy, Debug, PartialEq, Eq, Structural)]
pub struct UInt256Parts {
    pub hi_hi: u64,
    pub hi_lo: u64,
    pub lo_hi: u64,
    pub lo_lo: u64,
}

/// A contract value. The kinds that this library reads are held as plain
/// values; a value of any other kind is carried through as it came.
#[derive(Debug, PartialEq, Eq)]
pub enum ContractValue {
    Bool(bool),
    U32(u32),
    U64(u64),
    U256(UInt256Parts),
    /// The bytes of the symbol.
    Symbol(Vec<u8>),
    List(Option<Vec<ContractValue>>),
    Table(Option<Vec<TableEntry>>),
    /// The address in its text form.
    Address(String),
    Other(ScVal),
}

/// One entry of a [`ContractValue::Table`].
#[derive(Debug, PartialEq, Eq)]
pub struct TableEntry {
    pub key: ContractValue,
    pub val: ContractValue,
}

/// What a contract value is, as a mathematical value.
pub ghost enum ValueSpec {
    Bool(bool),
    U32(u32),
    U64(u64),
    U256(UInt256Parts),
    Symbol(Seq<u8>),
    List(Option<Seq<ValueSpec>>),
    Table(Option<Seq<(ValueSpec, ValueSpec)>>),
    Address(Seq<char>),
    Other(ScVal),
}

impl ContractValue {
    /// What the value is.
    pub open spec fn model(self) -> ValueSpec
        decreases self,
    {
        match self {
            ContractValue::Bool(b) => ValueSpec::Bool(b),
            ContractValue::U32(n) => ValueSpec::U32(n),
            ContractValue::U64(n) => ValueSpec::U64(n),
            ContractValue::U256(p) => ValueSpec::U256(p),
            ContractValue::Symbol(s) => ValueSpec::Symbol(s@),
            ContractValue::List(None) => ValueSpec::List(None),
            ContractValue::List(Some(items)) => ValueSpec::List(Some(models(items@))),
            ContractValue::Table(None) => ValueSpec::Table(None),
            ContractValue::Table(Some(entries)) => ValueSpec::Table(Some(entry_models(entries@))),
            ContractValue::Address(a) => ValueSpec::Address(a@),
            ContractValue::Other(v) => ValueSpec::Other(v),
        }
    }
}

/// What the values of a list are.
pub open spec fn models(items: Seq<ContractValue>) -> Seq<ValueSpec>
    decreases items,
{
    if items.len() == 0 {
        Seq::empty()
    } else {
        models(items.drop_last()).push(items.last().model())
    }
}

/// What the entries of a table are.
pub open spec fn entry_models(entries: Seq<TableEntry>) -> Seq<(ValueSpec, ValueSpec)>
    decreases entries,
{
    if entries.len() == 0 {
        Seq::empty()
    } else {
        entry_models(entries.drop_last()).push(
            (entries.last().key.model(), entries.last().val.model()),
        )
    }
}

impl View for ContractValue {
    type V = ValueSpec;

    open spec fn view(&self) -> ValueSpec {
        self.model()
    }
}

/// A contract value of the XDR crate.
#[verifier::external_type_specification]
#[verifier::external_body]
pub struct ExXdrScVal(ScVal);

/// What a `stellar_xdr::curr::ScVal` holds: its own value, or the values in the
/// list or the table that it is, down to the leaves.
pub uninterp spec fn scval_contents(v: ScVal) -> ValueSpec;

/// What `stellar_xdr::curr::ScVal::from_xdr_base64`, without limits, reads from
/// a text, or the text of its error where it fails.
pub uninterp spec fn scval_of_base64(text: Seq<char>) -> Result<ValueSpec, Seq<char>>;

/// The `Debug` form, `{:?}`, of a `stellar_xdr::curr::ScVal` with these contents.
pub uninterp spec fn scval_debug(contents: ValueSpec) -> Seq<char>;

/// Calls `stellar_xdr::curr::ScVal::from_xdr_base64` without limits on depth or
/// length. Whether it succeeds, and what the value that it gives holds or what
/// its error says, is a function of the text alone. The decoder recurses once
/// for each level that lists and tables are nested in each other.
#[verifier::external_body]
pub(crate) fn read_xdr_base64(text: &str) -> (r: Result<ScVal, String>)
    ensures
        match r {
            Ok(v) => scval_of_base64(text@) == Ok::<ValueSpec, Seq<char>>(scval_contents(v)),
            Err(failure) => scval_of_base64(text@) == Err::<ValueSpec, Seq<char>>(failure@),
        },
{
    ScVal::from_xdr_base64(text, xdr::Limits::none()).map_err(|e| e.to_string())
}

/// Formats a `stellar_xdr::curr::ScVal` with its derived `Debug`. The contents
/// tell a value from every other, so the result is a function of them.
#[verifier::external_body]
fn debug_text(v: &ScVal) -> (r: String)
    ensures
        r@ == scval_debug(scval_contents(*v)),
{
    format!("{v:?}")
}

/// The outermost layer of an XDR contract value.
enum Layer {
    Bool(bool),
    U32(u32),
    U64(u64),
    U256(u64, u64, u64, u64),
    Symbol(Vec<u8>),
    List(Option<Vec<ScVal>>),
    Table(Option<Vec<(ScVal, ScVal)>>),
    Address(String),
    Other(ScVal),
}

impl Layer {
    /// What a value with this outermost layer holds.
    spec fn contents(self) -> ValueSpec {
        match self {
            Layer::Bool(b) => ValueSpec::Bool(b),
            Layer::U32(n) => ValueSpec::U32(n),
            Layer::U64(n) => ValueSpec::U64(n),
            Layer::U256(hi_hi, hi_lo, lo_hi, lo_lo) => ValueSpec::U256(
                UInt256Parts { hi_hi, hi_lo, lo_hi, lo_lo },
            ),
            Layer::Symbol(s) => ValueSpec::Symbol(s@),
            Layer::List(None) => ValueSpec::List(None),
            Layer::List(Some(items)) => ValueSpec::List(
                Some(Seq::new(items@.len(), |i: int| scval_contents(items@[i]))),
            ),
            Layer::Table(None) => ValueSpec::Table(None),
            Layer::Table(Some(entries)) => ValueSpec::Table(
                Some(
                    Seq::new(
                        entries@.len(),
                        |i: int| (scval_contents(entries@[i].0), scval_contents(entries@[i].1)),
                    ),
                ),
            ),
            Layer::Address(a) => ValueSpec::Address(a@),
            Layer::Other(v) => ValueSpec::Other(v),
        }
    }
}

/// Takes the outermost layer off a `stellar_xdr::curr::ScVal`: a value of a
/// plain kind is that value, a symbol is its bytes, a list is its items and a
/// table its pairs of key and value, in their order, and an address is the text
/// that its `to_string` gives. A value of any other kind stays as it is.
#[verifier::external_body]
fn outer_layer(v: ScVal) -> (r: Layer)
    ensures
        r.contents() == scval_contents(v),
        r matches Layer::Other(x) ==> x == v,
{
    match v {
        ScVal::Bool(b) => Layer::Bool(b),
        ScVal::U32(n) => Layer::U32(n),
        ScVal::U64(n) => Layer::U64(n),
        ScVal::U256(p) => Layer::U256(p.hi_hi, p.hi_lo, p.lo_hi, p.lo_lo),
        ScVal::Symbol(s) => Layer::Symbol(s.into()),
        ScVal::Vec(items) => Layer::List(items.map(|l| l.0.into())),
        ScVal::Map(m) => Layer::Table(
            m.map(|t| t.0.into_vec().into_iter().map(|e| (e.key, e.val)).collect()),
        ),
        ScVal::Address(a) => Layer::Address(a.to_string()),
        other => Layer::Other(other),
    }
}

/// The values of a list, one by one.
pub proof fn lemma_models(items: Seq<ContractValue>)
    ensures
        models(items).len() == items.len(),
        forall|i: int| 0 <= i < items.len() ==> models(items)[i] == (#[trigger] items[i])@,
    decreases items.len(),
{
    if items.len() > 0 {
        lemma_models(items.drop_last());
        assert forall|i: int| 0 <= i < items.len() implies models(items)[i] == (
        #[trigger] items[i])@ by {
            if i < items.len() - 1 {
                assert(items[i] == items.drop_last()[i]);
            }
        }
    }
}

/// The entries of a table, one by one.
pub proof fn lemma_entry_models(entries: Seq<TableEntry>)
    ensures
        entry_models(entries).len() == entries.len(),
        forall|i: int|
            #![trigger entries[i]]
            0 <= i < entries.len() ==> entry_models(entries)[i] == (
                entries[i].key@,
                entries[i].val@,
            ),
    decreases entries.len(),
{
    if entries.len() > 0 {
        lemma_entry_models(entries.drop_last());
        assert forall|i: int| #![trigger entries[i]] 0 <= i < entries.len() implies entry_models(
            entries,
        )[i] == (entries[i].key@, entries[i].val@) by {
            if i < entries.len() - 1 {
                assert(entries[i] == entries.drop_last()[i]);
            }
        }
    }
}

/// An item of a list is smaller than the list.
proof fn lemma_item_is_smaller(v: ValueSpec, i: int)
    requires
        v matches ValueSpec::List(Some(items)) && 0 <= i < items.len(),
    ensures
        decreases_to!(v => v->List_0->0[i]),
{
    assert(decreases_to!(v => v->List_0));
    assert(decreases_to!(v->List_0 => v->List_0->0));
    assert(decreases_to!(v->List_0->0 => v->List_0->0[i]));
}

/// The key and the value of an entry are smaller than the table.
proof fn lemma_entry_is_smaller(v: ValueSpec, i: int)
    requires
        v matches ValueSpec::Table(Some(entries)) && 0 <= i < entries.len(),
    ensures
        decreases_to!(v => v->Table_0->0[i].0),
        decreases_to!(v => v->Table_0->0[i].1),
{
    assert(decreases_to!(v => v->Table_0));
    assert(decreases_to!(v->Table_0 => v->Table_0->0));
    assert(decreases_to!(v->Table_0->0 => v->Table_0->0[i]));
    assert(decreases_to!(v->Table_0->0[i] => v->Table_0->0[i].0));
    assert(decreases_to!(v->Table_0->0[i] => v->Table_0->0[i].1));
}

impl ContractValue {
    /// Takes an XDR contract value apart, down to its leaves.
    pub fn from_xdr(v: ScVal) -> (r: ContractValue)
        ensures
            r@ == scval_contents(v),
        decreases scval_contents(v),
    {
        match outer_layer(v) {
            Layer::Bool(b) => ContractValue::Bool(b),
            Layer::U32(n) => ContractValue::U32(n),
            Layer::U64(n) => ContractValue::U64(n),
            Layer::U256(hi_hi, hi_lo, lo_hi, lo_lo) => ContractValue::U256(
                UInt256Parts { hi_hi, hi_lo, lo_hi, lo_lo },
            ),
            Layer::Symbol(s) => ContractValue::Symbol(s),
            Layer::List(None) => ContractValue::List(None),
            Layer::List(Some(items)) => {
                let ghost contents = scval_contents(v)->List_0->0;
                let mut out: Vec<ContractValue> = Vec::new();
                for item in it: items.into_iter()
                    invariant
                        it.seq() == items@,
                        out@.len() == it.index(),
                        scval_contents(v) == ValueSpec::List(Some(contents)),
                        contents.len() == items@.len(),
                        forall|i: int|
                            0 <= i < items@.len() ==> contents[i] == scval_contents(
                                #[trigger] items@[i],
                            ),
                        forall|i: int| 0 <= i < out@.len() ==> (#[trigger] out@[i])@ == contents[i],
                {
                    proof {
                        assert(scval_contents(item) == contents[it.index() as int]);
                        lemma_item_is_smaller(scval_contents(v), it.index() as int);
                    }
                    out.push(ContractValue::from_xdr(item));
                }
                proof {
                    lemma_models(out@);
                    assert forall|i: int| 0 <= i < contents.len() implies models(out@)[i]
                        == contents[i] by {
                        assert(out@[i]@ == contents[i]);
                    }
                    assert(models(out@) =~= contents);
                }
                ContractValue::List(Some(out))
            },
            Layer::Table(None) => ContractValue::Table(None),
            Layer::Table(Some(entries)) => {
                let ghost contents = scval_contents(v)->Table_0->0;
                let mut out: Vec<TableEntry> = Vec::new();
                for entry in it: entries.into_iter()
                    invariant
                        it.seq() == entries@,
                        out@.len() == it.index(),
                        scval_contents(v) == ValueSpec::Table(Some(contents)),
                        contents.len() == entries@.len(),
                        forall|i: int|
                            #![trigger entries@[i]]
                            0 <= i < entries@.len() ==> contents[i] == (
                                scval_contents(entries@[i].0),
                                scval_contents(entries@[i].1),
                            ),
                        forall|i: int|
                            #![trigger out@[i]]
                            0 <= i < out@.len() ==> contents[i] == (out@[i].key@, out@[i].val@),
                {
                    let (key, val) = entry;
                    proof {
                        assert(entry == entries@[it.index() as int]);
                        lemma_entry_is_smaller(scval_contents(v), it.index() as int);
                    }
                    out.push(
                        TableEntry {
                            key: ContractValue::from_xdr(key),
                            val: ContractValue::from_xdr(val),
                        },
                    );
                }
                proof {
                    lemma_entry_models(out@);
                    assert forall|i: int| 0 <= i < contents.len() implies entry_models(out@)[i]
                        == contents[i] by {
                        assert(out@[i].key@ == contents[i].0);
                    }
                    assert(entry_models(out@) =~= contents);
                }
                ContractValue::Table(Some(out))
            },
            Layer::Address(a) => ContractValue::Address(a),
            Layer::Other(x) => ContractValue::Other(x),
        }
    }

    /// Reads the base64 text of an XDR contract value.
    pub fn from_xdr_base64(text: &str) -> (r: Result<ContractValue, StateError>)
        ensures
            match r {
                Ok(v) => scval_of_base64(text@) == Ok::<ValueSpec, Seq<char>>(v@),
                Err(e) => e == StateError::InvalidRetval && scval_of_base64(text@) is Err,
            },
    {
        match read_xdr_base64(text) {
            Ok(v) => Ok(ContractValue::from_xdr(v)),
            Err(_) => Err(StateError::InvalidRetval),
        }
    }
}

/// The `Debug` form of the XDR contract value with this base64 text.
pub(crate) fn debug_of_base64(text: &str) -> (r: String)
    requires
        scval_of_base64(text@) is Ok,
    ensures
        r@ == scval_debug(scval_of_base64(text@)->Ok_0),
{
    let v = read_xdr_base64(text).unwrap();
    debug_text(&v)
}

/// The `Debug` forms of the key and of the value of an entry of the XDR table
/// with this base64 text.
pub(crate) fn debug_of_entry(text: &str, i: usize) -> (r: (String, String))
    requires
        scval_of_base64(text@) matches Ok(ValueSpec::Table(Some(entries))) && i < entries.len(),
    ensures
        r.0@ == scval_debug(scval_of_base64(text@)->Ok_0->Table_0->0[i as int].0),
        r.1@ == scval_debug(scval_of_base64(text@)->Ok_0->Table_0->0[i as int].1),
{
    let v = read_xdr_base64(text).unwrap();
    match outer_layer(v) {
        Layer::Table(Some(entries)) => (debug_text(&entries[i].0), debug_text(&entries[i].1)),
        _ => {
            assert(false);
            (String::new(), String::new())
        },
    }
}

} // verus!
