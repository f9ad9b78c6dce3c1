//! What can go wrong when contract state is read.
use vstd::prelude::*;
use vstd::string::StringExecFns;

verus! {

/// The kinds of contract value that a reader can ask for.
#[derive(Clone, Copy, Debug, PartialEq, Eq, Structural)]
pub enum ValueKind {
    Bool,
    U32,
    U64,
    U256,
    Address,
}

/// Why contract state could not be read, or a request not be built.
#[derive(Debug, PartialEq, Eq)]
pub enum StateError {
    /// The contract's data holds no entry under the key.
    MissingStateKey { key: &'static str, contract: String },
    /// The contract value is of another kind than the one asked for.
    UnexpectedValue { expected: ValueKind },
    /// The number is not below the order of the field.
    FieldOutOfRange,
    /// The named number does not fit into an `i128`.
    DoesNotFitI128 { what: &'static str },
    /// A proof for a tree without levels was asked for.
    ZeroSmtDepth,
    /// The source account is not an account address.
    InvalidSourceAccount,
    /// The contract id is not a contract address.
    InvalidContractId,
    /// The function name is too long for a symbol.
    InvalidFunctionName,
    /// A list is too long for its XDR form.
    LengthExceedsMax,
    /// The simulation reported no operation result.
    NoOpResults,
    /// The operation result holds no return value.
    MissingRetval,
    /// The return value is not the base64 text of an XDR contract value.
    InvalidRetval,
    /// The return value of the key lookup is not a table.
    FindResultNotTable,
    /// A field name of the lookup result is not a symbol.
    FindResultFieldName,
    /// A field name of the lookup result is not valid UTF-8.
    FindResultFieldText,
    /// The lookup result does not say whether the key was found.
    FindResultMissingFound,
    /// The siblings of the lookup result are not a list.
    FindResultSiblings,
    /// The key is in the non-membership tree.
    KeyExists,
}

/// The first of two possible failures: `second` counts only where `first` did
/// not happen.
pub open spec fn first_of(first: Option<StateError>, second: Option<StateError>) -> Option<
    StateError,
> {
    if first is Some {
        first
    } else {
        second
    }
}

/// What the `Debug` form of a string, `{:?}`, is: the text in quotes, with
/// what cannot stand there escaped.
pub uninterp spec fn quoted_text(text: Seq<char>) -> Seq<char>;

/// Calls `std::format` with the `Debug` form, `{:?}`, of a string. The result is
/// a function of the text alone.
#[verifier::external_body]
fn quoted(text: &String) -> (r: String)
    ensures
        r@ == quoted_text(text@),
{
    format!("{text:?}")
}

/// The text that tells a user what went wrong. An error in what a lookup
/// returned has none of its own: its text shows the value that was returned.
pub open spec fn error_text(error: StateError) -> Option<Seq<char>> {
    match error {
        StateError::MissingStateKey { key, contract } => Some(
            "missing "@ + key@ + " state key in the contract "@ + quoted_text(contract@),
        ),
        StateError::UnexpectedValue { expected } => Some(
            match expected {
                ValueKind::Bool => "expected a boolean"@,
                ValueKind::U32 => "expected a 32-bit number"@,
                ValueKind::U64 => "expected a 64-bit number"@,
                ValueKind::U256 => "expected a 256-bit number"@,
                ValueKind::Address => "expected an address"@,
            },
        ),
        StateError::FieldOutOfRange => Some("the number is not below the order of the field"@),
        StateError::DoesNotFitI128 { what } => Some(what@ + " does not fit into i128"@),
        StateError::ZeroSmtDepth => Some("smt_depth must be > 0"@),
        StateError::InvalidSourceAccount => Some("the strkey is invalid"@),
        StateError::InvalidContractId => Some("the strkey is invalid"@),
        StateError::InvalidFunctionName => Some("invalid function name"@),
        StateError::LengthExceedsMax => Some("xdr value max length exceeded"@),
        StateError::NoOpResults => Some("simulateTransaction returned no op results"@),
        StateError::MissingRetval => Some("simulateTransaction missing retval"@),
        StateError::InvalidRetval => None,
        StateError::FindResultNotTable => None,
        StateError::FindResultFieldName => None,
        StateError::FindResultFieldText => None,
        StateError::FindResultMissingFound => Some("FindResult missing field: found"@),
        StateError::FindResultSiblings => None,
        StateError::KeyExists => Some("Key exists in non-membership tree (user is sanctioned)"@),
    }
}

impl StateError {
    /// Tells a user what went wrong, where the error alone says it. What to tell
    /// of an error in what a lookup returned is given by
    /// [`crate::contract_state::StateFetcher::lookup_message`].
    pub fn message(&self) -> (r: Option<String>)
        ensures
            r is Some <==> error_text(*self) is Some,
            r matches Some(text) ==> text@ == error_text(*self)->0,
    {
        let text = match self {
            StateError::MissingStateKey { key, contract } => "missing ".to_string().concat(
                key,
            ).concat(" state key in the contract ").concat(quoted(contract).as_str()),
            StateError::UnexpectedValue { expected } => match expected {
                ValueKind::Bool => "expected a boolean".to_string(),
                ValueKind::U32 => "expected a 32-bit number".to_string(),
                ValueKind::U64 => "expected a 64-bit number".to_string(),
                ValueKind::U256 => "expected a 256-bit number".to_string(),
                ValueKind::Address => "expected an address".to_string(),
            },
            StateError::FieldOutOfRange => {
                "the number is not below the order of the field".to_string()
            },
            StateError::DoesNotFitI128 { what } => (*what).to_string().concat(
                " does not fit into i128",
            ),
            StateError::ZeroSmtDepth => "smt_depth must be > 0".to_string(),
            StateError::InvalidSourceAccount => "the strkey is invalid".to_string(),
            StateError::InvalidContractId => "the strkey is invalid".to_string(),
            StateError::InvalidFunctionName => "invalid function name".to_string(),
            StateError::LengthExceedsMax => "xdr value max length exceeded".to_string(),
            StateError::NoOpResults => "simulateTransaction returned no op results".to_string(),
            StateError::MissingRetval => "simulateTransaction missing retval".to_string(),
            StateError::FindResultMissingFound => "FindResult missing field: found".to_string(),
            StateError::KeyExists => {
                "Key exists in non-membership tree (user is sanctioned)".to_string()
            },
            StateError::InvalidRetval
            | StateError::FindResultNotTable
            | StateError::FindResultFieldName
            | StateError::FindResultFieldText
            | StateError::FindResultSiblings => {
                return None;
            },
        };
        Some(text)
    }
}

} // verus!
