//! What holds of contract values and of how they come in.
use stellar_xdr::curr::ScVal;
use vstd::prelude::*;

use crate::error::StateError;
use crate::value::{
    lemma_entry_models, lemma_models, scval_contents, scval_of_base64, ContractValue, ValueSpec,
};

verus! {

/// A contract value is what its variant says: the same number, bytes or text, and
/// the items and entries one by one, in their order.
pub proof fn law_value_is_what_its_variant_says(v: ContractValue)
    ensures
        match v {
            ContractValue::Bool(b) => v@ == ValueSpec::Bool(b),
            ContractValue::U32(n) => v@ == ValueSpec::U32(n),
            ContractValue::U64(n) => v@ == ValueSpec::U64(n),
            ContractValue::U256(p) => v@ == ValueSpec::U256(p),
            ContractValue::Symbol(bytes) => v@ == ValueSpec::Symbol(bytes@),
            ContractValue::Address(text) => v@ == ValueSpec::Address(text@),
            ContractValue::Other(x) => v@ == ValueSpec::Other(x),
            ContractValue::List(None) => v@ == ValueSpec::List(None),
            ContractValue::Table(None) => v@ == ValueSpec::Table(None),
            ContractValue::List(Some(items)) => v@ matches ValueSpec::List(Some(models)) && {
                &&& models.len() == items@.len()
                &&& forall|i: int|
                    #![trigger items@[i]]
                    0 <= i < items@.len() ==> models[i] == items@[i]@
            },
            ContractValue::Table(Some(entries)) => v@ matches ValueSpec::Table(Some(models)) && {
                &&& models.len() == entries@.len()
                &&& forall|i: int|
                    #![trigger entries@[i]]
                    0 <= i < entries@.len() ==> models[i].0 == entries@[i].key@ && models[i].1
                        == entries@[i].val@
            },
        },
{
    match v {
        ContractValue::List(Some(items)) => {
            lemma_models(items@);
        },
        ContractValue::Table(Some(entries)) => {
            lemma_entry_models(entries@);
        },
        _ => {},
    }
}

/// What comes in holds what the XDR value holds, variant by variant.
pub proof fn law_xdr_value_comes_in_whole(x: ScVal, v: ContractValue)
    requires
        call_ensures(ContractValue::from_xdr, (x,), v),
    ensures
        match scval_contents(x) {
            ValueSpec::Bool(b) => v == ContractValue::Bool(b),
            ValueSpec::U32(n) => v == ContractValue::U32(n),
            ValueSpec::U64(n) => v == ContractValue::U64(n),
            ValueSpec::U256(p) => v == ContractValue::U256(p),
            ValueSpec::Symbol(bytes) => v matches ContractValue::Symbol(b) && b@ == bytes,
            ValueSpec::Address(text) => v matches ContractValue::Address(a) && a@ == text,
            ValueSpec::Other(y) => v == ContractValue::Other(y),
            ValueSpec::List(None) => v == ContractValue::List(None),
            ValueSpec::Table(None) => v == ContractValue::Table(None),
            ValueSpec::List(Some(models)) => v matches ContractValue::List(Some(items)) && {
                &&& items@.len() == models.len()
                &&& forall|i: int|
                    #![trigger items@[i]]
                    0 <= i < models.len() ==> items@[i]@ == models[i]
            },
            ValueSpec::Table(Some(models)) => v matches ContractValue::Table(Some(entries)) && {
                &&& entries@.len() == models.len()
                &&& forall|i: int|
                    #![trigger entries@[i]]
                    0 <= i < models.len() ==> entries@[i].key@ == models[i].0 && entries@[i].val@
                        == models[i].1
            },
        },
{
    law_value_is_what_its_variant_says(v);
}

/// A text is read as the value that it encodes, and fails to be read where it
/// encodes none.
pub proof fn law_text_is_read_as_what_it_encodes(
    text: &str,
    x: ScVal,
    whole: ContractValue,
    r: Result<ContractValue, StateError>,
)
    requires
        call_ensures(ContractValue::from_xdr_base64, (text,), r),
        call_ensures(ContractValue::from_xdr, (x,), whole),
    ensures
        scval_of_base64(text@) == Ok::<ValueSpec, Seq<char>>(scval_contents(x)) ==> (r matches Ok(
            v,
        ) && v@ == whole@),
        scval_of_base64(text@) is Err ==> r == Err::<ContractValue, StateError>(
            StateError::InvalidRetval,
        ),
        scval_of_base64(text@) is Ok ==> r is Ok,
{
}

} // verus!
