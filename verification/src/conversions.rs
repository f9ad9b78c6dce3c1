//! Reading a contract value as a plain value of one kind.
use vstd::prelude::*;

use crate::error::{first_of, StateError, ValueKind};
use crate::field::{range_error, Field};
use crate::uint::U256;
use crate::value::{ContractValue, UInt256Parts, ValueSpec};

verus! {

/// The number that the four words write.
pub open spec fn parts_nat(p: UInt256Parts) -> nat {
    ((p.hi_hi as nat * 0x1_0000_0000_0000_0000 + p.hi_lo as nat) * 0x1_0000_0000_0000_0000
        + p.lo_hi as nat) * 0x1_0000_0000_0000_0000 + p.lo_lo as nat
}

/// Whether a contract value is of the given kind.
pub open spec fn is_kind(v: ValueSpec, kind: ValueKind) -> bool {
    match kind {
        ValueKind::Bool => v is Bool,
        ValueKind::U32 => v is U32,
        ValueKind::U64 => v is U64,
        ValueKind::U256 => v is U256,
        ValueKind::Address => v is Address,
    }
}

/// The failure of reading `v` as a value of the given kind, if it fails.
pub open spec fn kind_error(v: ValueSpec, kind: ValueKind) -> Option<StateError> {
    if is_kind(v, kind) {
        None
    } else {
        Some(StateError::UnexpectedValue { expected: kind })
    }
}

/// The failure of reading a contract value as a field element, if it fails.
pub open spec fn element_error(v: ValueSpec) -> Option<StateError> {
    first_of(kind_error(v, ValueKind::U256), range_error(parts_nat(v->U256_0)))
}

/// The boolean that a contract value holds.
pub fn scval_to_bool(v: &ContractValue) -> (r: Result<bool, StateError>)
    ensures
        match r {
            Ok(b) => v@ == ValueSpec::Bool(b),
            Err(e) => kind_error(v@, ValueKind::Bool) == Some(e),
        },
{
    match v {
        ContractValue::Bool(b) => Ok(*b),
        _ => Err(StateError::UnexpectedValue { expected: ValueKind::Bool }),
    }
}

/// The 32-bit number that a contract value holds.
pub fn scval_to_u32(v: &ContractValue) -> (r: Result<u32, StateError>)
    ensures
        match r {
            Ok(n) => v@ == ValueSpec::U32(n),
            Err(e) => kind_error(v@, ValueKind::U32) == Some(e),
        },
{
    match v {
        ContractValue::U32(n) => Ok(*n),
        _ => Err(StateError::UnexpectedValue { expected: ValueKind::U32 }),
    }
}

/// The 64-bit number that a contract value holds.
pub fn scval_to_u64(v: &ContractValue) -> (r: Result<u64, StateError>)
    ensures
        match r {
            Ok(n) => v@ == ValueSpec::U64(n),
            Err(e) => kind_error(v@, ValueKind::U64) == Some(e),
        },
{
    match v {
        ContractValue::U64(n) => Ok(*n),
        _ => Err(StateError::UnexpectedValue { expected: ValueKind::U64 }),
    }
}

/// The 256-bit number that a contract value holds.
pub fn scval_to_u256(v: &ContractValue) -> (r: Result<U256, StateError>)
    ensures
        match r {
            Ok(n) => v@ matches ValueSpec::U256(p) && n@ == parts_nat(p),
            Err(e) => kind_error(v@, ValueKind::U256) == Some(e),
        },
{
    match v {
        ContractValue::U256(p) => Ok(
            U256 {
                hi: p.hi_hi as u128 * 0x1_0000_0000_0000_0000 + p.hi_lo as u128,
                lo: p.lo_hi as u128 * 0x1_0000_0000_0000_0000 + p.lo_lo as u128,
            },
        ),
        _ => Err(StateError::UnexpectedValue { expected: ValueKind::U256 }),
    }
}

/// The text of the address that a contract value holds.
pub fn scval_to_address_string(v: &ContractValue) -> (r: Result<String, StateError>)
    ensures
        match r {
            Ok(a) => v@ == ValueSpec::Address(a@),
            Err(e) => kind_error(v@, ValueKind::Address) == Some(e),
        },
{
    match v {
        ContractValue::Address(a) => Ok(a.clone()),
        _ => Err(StateError::UnexpectedValue { expected: ValueKind::Address }),
    }
}

/// Reads a contract value as a field element.
pub fn scval_to_field(v: &ContractValue) -> (r: Result<Field, StateError>)
    ensures
        match r {
            Ok(f) => element_error(v@) is None && f@ == parts_nat(v@->U256_0),
            Err(e) => element_error(v@) == Some(e),
        },
{
    Field::try_from_u256(scval_to_u256(v)?)
}

} // verus!
