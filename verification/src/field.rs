//! Elements of the scalar field of the BN254 curve.
use vstd::prelude::*;

use crate::error::StateError;
use crate::uint::{be_nat, le_nat, U256};

verus! {

/// The upper half of the order of the field.
pub const FIELD_ORDER_HI: u128 = 0x30644e72e131a029b85045b68181585d;

/// The lower half of the order of the field.
pub const FIELD_ORDER_LO: u128 = 0x2833e84879b9709143e1f593f0000001;

/// The order of the field: every element is a number below it.
pub open spec fn field_order() -> nat {
    U256 { hi: FIELD_ORDER_HI, lo: FIELD_ORDER_LO }@
}

/// The failure of taking a number as a field element, if it fails.
pub open spec fn range_error(n: nat) -> Option<StateError> {
    if n < field_order() {
        None
    } else {
        Some(StateError::FieldOutOfRange)
    }
}

/// A field element, held as the one number below the order that stands for it.
#[derive(Clone, Copy, Debug, PartialEq, Eq)]
pub struct Field {
    value: U256,
}

/// The public key of a note: the bytes of a field element, least significant
/// byte first.
#[derive(Clone, Copy, Debug, PartialEq, Eq)]
pub struct NotePublicKey(pub [u8; 32]);

impl View for Field {
    type V = nat;

    closed spec fn view(&self) -> nat {
        self.value@
    }
}

impl Field {
    #[verifier::type_invariant]
    spec fn canonical(self) -> bool {
        self.value@ < field_order()
    }

    /// An element is the number that stands for it.
    pub proof fn lemma_view_injective(a: Field, b: Field)
        ensures
            a@ == b@ ==> a == b,
    {
    }

    /// The additive identity.
    pub fn zero() -> (r: Field)
        ensures
            r@ == 0,
    {
        Field { value: U256 { hi: 0, lo: 0 } }
    }

    /// Whether the element is the additive identity.
    pub fn is_zero(&self) -> (r: bool)
        ensures
            r == (self@ == 0),
    {
        self.value.hi == 0 && self.value.lo == 0
    }

    /// The element that `value` stands for, if it is below the order.
    pub fn try_from_u256(value: U256) -> (r: Result<Field, StateError>)
        ensures
            match r {
                Ok(f) => f@ == value@ && range_error(value@) is None,
                Err(e) => range_error(value@) == Some(e),
            },
    {
        if value.hi < FIELD_ORDER_HI || (value.hi == FIELD_ORDER_HI && value.lo < FIELD_ORDER_LO) {
            Ok(Field { value })
        } else {
            Err(StateError::FieldOutOfRange)
        }
    }

    /// The element whose bytes, least significant byte first, these are.
    pub fn try_from_le_bytes(bytes: [u8; 32]) -> (r: Result<Field, StateError>)
        ensures
            match r {
                Ok(f) => f@ == le_nat(bytes@) && range_error(le_nat(bytes@)) is None,
                Err(e) => range_error(le_nat(bytes@)) == Some(e),
            },
    {
        Field::try_from_u256(U256::from_le_bytes(&bytes))
    }

    /// The bytes of the element, most significant byte first.
    pub fn to_be_bytes(&self) -> (r: [u8; 32])
        ensures
            be_nat(r@) == self@,
            self@ < field_order(),
    {
        proof {
            use_type_invariant(self);
        }
        let mut be: [u8; 32] = [0u8; 32];
        self.value.to_big_endian(&mut be);
        be
    }
}

} // verus!
