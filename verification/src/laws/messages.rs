//! What holds of what a user is told.
use vstd::prelude::*;

use crate::contract_state::StateFetcher;
use crate::error::{quoted_text, StateError};
use crate::find_result::{
    first_unreadable, is_first_unreadable, key_error, keys_error, lemma_all_readable,
    lemma_first_unreadable,
};
use crate::laws::lookups::{held_under, lemma_fields, name_fault, Entries};
use crate::nonmembership::{lookup_error, PendingProof, SimulationResponse};
use crate::symbol::symbol_failure;
use crate::types::AspNonMembershipProof;
use crate::value::{scval_debug, scval_of_base64, ValueSpec};

verus! {

/// A missing entry is told by its key and its contract, a number by its name, and
/// every other error by a text of its own; only the errors in what a lookup
/// returned are told with the value.
pub proof fn law_error_is_told_by_what_it_names(error: StateError, r: Option<String>)
    requires
        call_ensures(StateError::message, (&error,), r),
    ensures
        match error {
            StateError::MissingStateKey { key, contract } => r matches Some(text) && text@
                == "missing "@ + key@ + " state key in the contract "@ + quoted_text(contract@),
            StateError::DoesNotFitI128 { what } => r matches Some(text) && text@ == what@
                + " does not fit into i128"@,
            StateError::ZeroSmtDepth => r matches Some(text) && text@ == "smt_depth must be > 0"@,
            StateError::NoOpResults => r matches Some(text) && text@
                == "simulateTransaction returned no op results"@,
            StateError::MissingRetval => r matches Some(text) && text@
                == "simulateTransaction missing retval"@,
            StateError::InvalidFunctionName => r matches Some(text) && text@
                == "invalid function name"@,
            StateError::FindResultMissingFound => r matches Some(text) && text@
                == "FindResult missing field: found"@,
            StateError::KeyExists => r matches Some(text) && text@
                == "Key exists in non-membership tree (user is sanctioned)"@,
            StateError::InvalidRetval => r is None,
            StateError::FindResultNotTable => r is None,
            StateError::FindResultFieldName => r is None,
            StateError::FindResultFieldText => r is None,
            StateError::FindResultSiblings => r is None,
            _ => r is Some,
        },
{
}

/// A simulation is explained exactly where it completes no proof, and by the text
/// of the error where the error has one.
pub proof fn law_failed_lookup_is_explained(
    pending: PendingProof,
    sim: SimulationResponse,
    finished: Result<AspNonMembershipProof, StateError>,
    own: Option<String>,
    r: Option<String>,
)
    requires
        call_ensures(StateFetcher::finish_nonmembership_proof, (pending, &sim), finished),
        finished matches Err(e) ==> call_ensures(StateError::message, (&e,), own),
        call_ensures(StateFetcher::lookup_message, (&sim,), r),
    ensures
        r is Some <==> finished is Err,
        finished is Err ==> (own matches Some(told) ==> (r matches Some(text) && text@ == told@)),
{
}

/// A value that cannot be decoded is explained by what the decoder says.
pub proof fn law_undecodable_value_is_explained(
    sim: SimulationResponse,
    returned: &String,
    failure: Seq<char>,
    r: Option<String>,
)
    requires
        call_ensures(
            StateFetcher::simulation_retval,
            (&sim,),
            Ok::<&String, StateError>(returned),
        ),
        scval_of_base64(returned@) == Err::<ValueSpec, Seq<char>>(failure),
        call_ensures(StateFetcher::lookup_message, (&sim,), r),
    ensures
        r matches Some(text) && text@ == failure,
{
}

/// A value that is no table is explained by the value itself.
pub proof fn law_value_that_is_no_table_is_explained(
    sim: SimulationResponse,
    returned: &String,
    v: ValueSpec,
    r: Option<String>,
)
    requires
        call_ensures(
            StateFetcher::simulation_retval,
            (&sim,),
            Ok::<&String, StateError>(returned),
        ),
        scval_of_base64(returned@) == Ok::<ValueSpec, Seq<char>>(v),
        !(v matches ValueSpec::Table(Some(_))),
        call_ensures(StateFetcher::lookup_message, (&sim,), r),
    ensures
        r matches Some(text) && text@ == "FindResult: expected ScVal::Map, got "@ + scval_debug(v),
{
}

/// A table with a name at fault is explained by the first such name: a symbol by
/// what its decoder says, any other key by the key itself.
pub proof fn law_name_at_fault_is_explained(
    sim: SimulationResponse,
    returned: &String,
    entries: Entries,
    i: int,
    r: Option<String>,
)
    requires
        call_ensures(
            StateFetcher::simulation_retval,
            (&sim,),
            Ok::<&String, StateError>(returned),
        ),
        scval_of_base64(returned@) == Ok::<ValueSpec, Seq<char>>(ValueSpec::Table(Some(entries))),
        0 <= i < entries.len(),
        name_fault(entries[i].0) is Some,
        forall|j: int|
            #![trigger entries[j]]
            0 <= j < i ==> name_fault(entries[j].0) is None,
        call_ensures(StateFetcher::lookup_message, (&sim,), r),
    ensures
        r matches Some(text) && text@ == (match entries[i].0 {
            ValueSpec::Symbol(bytes) => symbol_failure(bytes),
            other => "FindResult: field name should be a symbol: "@ + scval_debug(other),
        }),
{
    lemma_told_name(entries, i);
    let v = ValueSpec::Table(Some(entries));
    assert(lookup_error(v) == name_fault(entries[i].0));
}

/// Siblings that are no list are explained by the value that the last entry under
/// their symbol holds.
pub proof fn law_siblings_at_fault_are_explained(
    sim: SimulationResponse,
    returned: &String,
    entries: Entries,
    v: ValueSpec,
    b: bool,
    r: Option<String>,
)
    requires
        call_ensures(
            StateFetcher::simulation_retval,
            (&sim,),
            Ok::<&String, StateError>(returned),
        ),
        scval_of_base64(returned@) == Ok::<ValueSpec, Seq<char>>(ValueSpec::Table(Some(entries))),
        forall|j: int|
            #![trigger entries[j]]
            0 <= j < entries.len() ==> name_fault(entries[j].0) is None,
        held_under(entries, "found"@) == Some(ValueSpec::Bool(b)),
        held_under(entries, "siblings"@) == Some(v),
        !(v is List),
        call_ensures(StateFetcher::lookup_message, (&sim,), r),
    ensures
        r matches Some(text) && text@ == "FindResult.siblings: unexpected ScVal: "@ + scval_debug(
            v,
        ),
{
    lemma_fields(entries);
    assert forall|j: int| #![trigger entries[j]] 0 <= j < entries.len() implies key_error(
        entries[j].0,
    ) is None by {
        assert(name_fault(entries[j].0) is None);
    }
    lemma_all_readable(entries);
    assert(lookup_error(ValueSpec::Table(Some(entries))) == Some(StateError::FindResultSiblings));
}

/// The first name at fault is the one that the explanation looks at.
proof fn lemma_told_name(entries: Entries, i: int)
    requires
        0 <= i < entries.len(),
        name_fault(entries[i].0) is Some,
        forall|j: int|
            #![trigger entries[j]]
            0 <= j < i ==> name_fault(entries[j].0) is None,
    ensures
        first_unreadable(entries) == i,
        keys_error(entries) == name_fault(entries[i].0),
{
    assert forall|j: int| #![trigger entries[j]] 0 <= j < i implies key_error(
        entries[j].0,
    ) is None by {
        assert(name_fault(entries[j].0) is None);
    }
    assert(is_first_unreadable(entries, i));
    lemma_first_unreadable(entries, i);
}

} // verus!
