//! What holds of numbers and of their byte, word and text forms.
use vstd::arithmetic::power::{lemma_pow0, pow};
use vstd::arithmetic::power2::lemma_pow2_unfold;
use vstd::prelude::*;

use crate::contract_state::{tree_capacity, StateFetcher};
use crate::conversions::{
    scval_to_address_string, scval_to_bool, scval_to_field, scval_to_u256, scval_to_u32,
    scval_to_u64,
};
use crate::decimal::{decimal, digit, to_decimal};
use crate::error::{StateError, ValueKind};
use crate::field::Field;
use crate::uint::{
    be_nat, be_u64, lemma_be_nat_concat, lemma_be_nat_injective, lemma_pow256_constants, pow256,
    U256,
};
use crate::value::{ContractValue, UInt256Parts};

verus! {

/// The number in the two halves.
pub open spec fn halves_number(n: U256) -> nat {
    n.hi as nat * 0x1_0000_0000_0000_0000_0000_0000_0000_0000 + n.lo as nat
}

/// The number in the four words, the first one the most significant.
pub open spec fn words_number(p: UInt256Parts) -> nat {
    p.hi_hi as nat * 0x1_0000_0000_0000_0000_0000_0000_0000_0000_0000_0000_0000_0000
        + p.hi_lo as nat * 0x1_0000_0000_0000_0000_0000_0000_0000_0000 + p.lo_hi as nat
        * 0x1_0000_0000_0000_0000 + p.lo_lo as nat
}

/// A number below `m` can be split off a multiple of `m` in one way only.
proof fn lemma_split(a: int, b: int, c: int, d: int, m: int)
    by (nonlinear_arith)
    requires
        0 <= b < m,
        0 <= d < m,
        a * m + b == c * m + d,
    ensures
        a == c,
        b == d,
{
}

/// The words tell a number from every other.
pub proof fn lemma_words_injective(p: UInt256Parts, q: UInt256Parts)
    requires
        words_number(p) == words_number(q),
    ensures
        p == q,
{
    let m = 0x1_0000_0000_0000_0000int;
    let p_hi = p.hi_hi * m + p.hi_lo;
    let q_hi = q.hi_hi * m + q.hi_lo;
    assert(words_number(p) == (p_hi * m + p.lo_hi) * m + p.lo_lo);
    assert(words_number(q) == (q_hi * m + q.lo_hi) * m + q.lo_lo);
    lemma_split(p_hi * m + p.lo_hi, p.lo_lo as int, q_hi * m + q.lo_hi, q.lo_lo as int, m);
    lemma_split(p_hi, p.lo_hi as int, q_hi, q.lo_hi as int, m);
    lemma_split(p.hi_hi as int, p.hi_lo as int, q.hi_hi as int, q.hi_lo as int, m);
}

/// The order of the scalar field of the BN254 curve.
pub open spec fn bn254_order() -> nat {
    21888242871839275222246405745257275088548364400416034343698204186575808495617nat
}

/// The powers of the library are those of arithmetic.
proof fn lemma_pow256(n: nat)
    ensures
        pow256(n) == pow(256, n),
    decreases n,
{
    reveal(pow);
    if n == 0 {
        lemma_pow0(256);
    } else {
        lemma_pow256((n - 1) as nat);
    }
}

/// What one byte adds to a number, most significant byte first.
proof fn lemma_byte_weight(x: Seq<u8>, y: Seq<u8>, i: int)
    requires
        x.len() == y.len(),
        0 <= i < x.len(),
        forall|j: int| 0 <= j < x.len() && j != i ==> x[j] == y[j],
    ensures
        be_nat(x) - be_nat(y) == (x[i] - y[i]) * pow256((x.len() - 1 - i) as nat),
    decreases x.len(),
{
    let d = x[i] - y[i];
    if i == x.len() - 1 {
        assert(x.drop_last() =~= y.drop_last());
        assert(pow256(0) == 1);
        assert(d * 1 == d);
    } else {
        let (x_init, y_init) = (x.drop_last(), y.drop_last());
        lemma_byte_weight(x_init, y_init, i);
        let p = pow256((x.len() - 2 - i) as nat);
        let q = pow256((x.len() - 1 - i) as nat);
        let (m, n) = (be_nat(x_init), be_nat(y_init));
        assert(x.last() == y.last());
        assert(m * 256 - n * 256 == d * q) by (nonlinear_arith)
            requires
                q == p * 256,
                m - n == d * p,
        ;
    }
}

/// Bytes that are all zero write zero.
proof fn lemma_zero_bytes(x: Seq<u8>)
    requires
        forall|j: int| 0 <= j < x.len() ==> x[j] == 0,
    ensures
        be_nat(x) == 0,
    decreases x.len(),
{
    if x.len() > 0 {
        lemma_zero_bytes(x.drop_last());
    }
}

/// Each byte of a number counts with its own power of 256, the first byte with
/// the highest, and bytes that are all zero are the number zero.
pub proof fn law_big_endian_weights(x: [u8; 32], y: [u8; 32], m: U256, n: U256, i: int)
    requires
        call_ensures(U256::from_be_bytes, (&x,), m),
        call_ensures(U256::from_be_bytes, (&y,), n),
        0 <= i < 32,
        forall|j: int| 0 <= j < 32 && j != i ==> x@[j] == y@[j],
    ensures
        halves_number(m) - halves_number(n) == (x@[i] - y@[i]) * pow(256, (31 - i) as nat),
        (forall|j: int| 0 <= j < 32 ==> x@[j] == 0) ==> halves_number(m) == 0,
{
    lemma_byte_weight(x@, y@, i);
    lemma_pow256((31 - i) as nat);
    if forall|j: int| 0 <= j < 32 ==> x@[j] == 0 {
        lemma_zero_bytes(x@);
    }
}

/// Each byte of a number counts with its own power of 256, the first byte with
/// the lowest, and bytes that are all zero are the number zero.
pub proof fn law_little_endian_weights(x: [u8; 32], y: [u8; 32], m: U256, n: U256, i: int)
    requires
        call_ensures(U256::from_le_bytes, (&x,), m),
        call_ensures(U256::from_le_bytes, (&y,), n),
        0 <= i < 32,
        forall|j: int| 0 <= j < 32 && j != i ==> x@[j] == y@[j],
    ensures
        halves_number(m) - halves_number(n) == (x@[i] - y@[i]) * pow(256, i as nat),
        (forall|j: int| 0 <= j < 32 ==> x@[j] == 0) ==> halves_number(m) == 0,
{
    lemma_byte_weight(x@.reverse(), y@.reverse(), 31 - i);
    lemma_pow256(i as nat);
    if forall|j: int| 0 <= j < 32 ==> x@[j] == 0 {
        lemma_zero_bytes(x@.reverse());
    }
}

/// The four words of the bytes are the halves of the number, in their order.
pub proof fn law_words_make_the_number(bytes: [u8; 32], n: U256, a: u64, b: u64, c: u64, d: u64)
    requires
        call_ensures(U256::from_be_bytes, (&bytes,), n),
        call_ensures(be_u64, (&bytes, 0), a),
        call_ensures(be_u64, (&bytes, 8), b),
        call_ensures(be_u64, (&bytes, 16), c),
        call_ensures(be_u64, (&bytes, 24), d),
    ensures
        n.hi == a * 0x1_0000_0000_0000_0000 + b,
        n.lo == c * 0x1_0000_0000_0000_0000 + d,
{
    let s = bytes@.subrange(0, 8);
    let t = bytes@.subrange(8, 16);
    let u = bytes@.subrange(16, 24);
    let v = bytes@.subrange(24, 32);
    lemma_be_nat_concat(s, t);
    lemma_be_nat_concat(u, v);
    lemma_be_nat_concat(s + t, u + v);
    lemma_pow256_constants();
    assert((s + t) + (u + v) =~= bytes@);
}

/// Every number below the order is an element, and no other; the element is the
/// whole number.
pub proof fn law_element_is_the_number(v: U256, r: Result<Field, StateError>)
    requires
        call_ensures(Field::try_from_u256, (v,), r),
    ensures
        r is Ok <==> halves_number(v) < bn254_order(),
        r matches Ok(f) ==> f@ == halves_number(v),
        r matches Err(e) ==> e == StateError::FieldOutOfRange,
{
}

/// The element read from bytes is the number that the bytes write, least
/// significant byte first, where it is below the order.
pub proof fn law_element_of_bytes_is_the_number(
    bytes: [u8; 32],
    n: U256,
    r: Result<Field, StateError>,
)
    requires
        call_ensures(U256::from_le_bytes, (&bytes,), n),
        call_ensures(Field::try_from_le_bytes, (bytes,), r),
    ensures
        r is Ok <==> halves_number(n) < bn254_order(),
        r matches Ok(f) ==> f@ == halves_number(n),
        r matches Err(e) ==> e == StateError::FieldOutOfRange,
{
}

/// The bytes of an element read back as the element, and different elements have
/// different bytes.
pub proof fn law_element_survives_its_bytes(
    f: Field,
    g: Field,
    f_bytes: [u8; 32],
    g_bytes: [u8; 32],
    n: U256,
)
    requires
        call_ensures(Field::to_be_bytes, (&f,), f_bytes),
        call_ensures(Field::to_be_bytes, (&g,), g_bytes),
        call_ensures(U256::from_be_bytes, (&f_bytes,), n),
    ensures
        halves_number(n) == f@,
        f@ < bn254_order(),
        f_bytes@ == g_bytes@ <==> f == g,
{
    Field::lemma_view_injective(f, g);
    if f == g {
        lemma_be_nat_injective(f_bytes@, g_bytes@);
    }
}

/// Zero is the element zero, and only that one is said to be zero.
pub proof fn law_only_zero_is_zero(zero: Field, f: Field, r: bool)
    requires
        call_ensures(Field::zero, (), zero),
        call_ensures(Field::is_zero, (&f,), r),
    ensures
        zero@ == 0,
        r <==> f == zero,
        r <==> f@ == 0,
{
    Field::lemma_view_injective(f, zero);
}

/// The contract value of an element holds the words of its number, the most
/// significant first.
pub proof fn law_element_as_words(f: Field, v: ContractValue)
    requires
        call_ensures(StateFetcher::field_to_scval_u256, (f,), v),
    ensures
        v matches ContractValue::U256(p) && words_number(p) == f@,
{
}

/// A 256-bit number is an amount exactly where its upper half is zero and its
/// lower half is no more than the largest `i128`, and the amount is that half.
pub proof fn law_amount_is_the_number(v: U256, what: &'static str, r: Result<i128, StateError>)
    requires
        call_ensures(StateFetcher::u256_to_i128_checked, (v, what), r),
    ensures
        r is Ok <==> v.hi == 0 && v.lo <= i128::MAX,
        r matches Ok(n) ==> n == v.lo,
        r matches Err(e) ==> e == (StateError::DoesNotFitI128 { what }),
{
}

/// A boolean is read as itself, and nothing else is read as one.
pub proof fn law_bool_is_read_as_itself(v: ContractValue, r: Result<bool, StateError>)
    requires
        call_ensures(scval_to_bool, (&v,), r),
    ensures
        r is Ok <==> v is Bool,
        v matches ContractValue::Bool(b) ==> r == Ok::<bool, StateError>(b),
        r matches Err(e) ==> e == (StateError::UnexpectedValue { expected: ValueKind::Bool }),
{
}

/// A 32-bit number is read as itself, and nothing else is read as one.
pub proof fn law_u32_is_read_as_itself(v: ContractValue, r: Result<u32, StateError>)
    requires
        call_ensures(scval_to_u32, (&v,), r),
    ensures
        r is Ok <==> v is U32,
        v matches ContractValue::U32(n) ==> r == Ok::<u32, StateError>(n),
        r matches Err(e) ==> e == (StateError::UnexpectedValue { expected: ValueKind::U32 }),
{
}

/// A 64-bit number is read as itself, and nothing else is read as one.
pub proof fn law_u64_is_read_as_itself(v: ContractValue, r: Result<u64, StateError>)
    requires
        call_ensures(scval_to_u64, (&v,), r),
    ensures
        r is Ok <==> v is U64,
        v matches ContractValue::U64(n) ==> r == Ok::<u64, StateError>(n),
        r matches Err(e) ==> e == (StateError::UnexpectedValue { expected: ValueKind::U64 }),
{
}

/// A 256-bit number is read as the number in its four words, and nothing else is
/// read as one.
pub proof fn law_u256_is_read_as_its_words(v: ContractValue, r: Result<U256, StateError>)
    requires
        call_ensures(scval_to_u256, (&v,), r),
    ensures
        r is Ok <==> v is U256,
        v matches ContractValue::U256(p) ==> (r matches Ok(n) && halves_number(n) == words_number(
            p,
        )),
        r matches Err(e) ==> e == (StateError::UnexpectedValue { expected: ValueKind::U256 }),
{
}

/// An address is read as its text, and nothing else is read as one.
pub proof fn law_address_is_read_as_its_text(v: ContractValue, r: Result<String, StateError>)
    requires
        call_ensures(scval_to_address_string, (&v,), r),
    ensures
        r is Ok <==> v is Address,
        v matches ContractValue::Address(a) ==> (r matches Ok(text) && text@ == a@),
        r matches Err(e) ==> e == (StateError::UnexpectedValue { expected: ValueKind::Address }),
{
}

/// The words of a 256-bit number below the order are read as the element of that
/// number, and nothing else is read as an element.
pub proof fn law_element_is_read_from_its_words(v: ContractValue, r: Result<Field, StateError>)
    requires
        call_ensures(scval_to_field, (&v,), r),
    ensures
        r is Ok <==> (v matches ContractValue::U256(p) && words_number(p) < bn254_order()),
        v matches ContractValue::U256(p) ==> (r matches Ok(f) ==> f@ == words_number(p)),
        v matches ContractValue::U256(p) ==> (r matches Err(e) ==> e
            == StateError::FieldOutOfRange),
        !(v is U256) ==> r == Err::<Field, StateError>(
            StateError::UnexpectedValue { expected: ValueKind::U256 },
        ),
{
}

/// The number that a text of decimal digits says.
pub open spec fn number_said(text: Seq<char>) -> int
    decreases text.len(),
{
    if text.len() == 0 {
        0
    } else {
        number_said(text.drop_last()) * 10 + (text.last() as int - '0' as int)
    }
}

/// Whether a text says a number in decimal digits, without a zero in front of it.
pub open spec fn is_decimal_text(text: Seq<char>, n: int) -> bool {
    &&& text.len() > 0
    &&& forall|i: int|
        0 <= i < text.len() ==> '0' as int <= #[trigger] text[i] as int <= '9' as int
    &&& text.len() > 1 ==> text[0] != '0'
    &&& number_said(text) == n
}

/// What holds of every decimal text.
pub proof fn lemma_decimal(n: nat)
    ensures
        is_decimal_text(decimal(n), n as int),
        n > 0 ==> decimal(n)[0] != '0',
    decreases n,
{
    let text = decimal(n);
    assert('0' as int == 48 && '9' as int == 57);
    assert(digit(n % 10) as int == 48 + n % 10);
    if n >= 10 {
        lemma_decimal(n / 10);
        assert(text.drop_last() =~= decimal(n / 10));
        assert(text[0] == decimal(n / 10)[0]);
    } else {
        assert(text.drop_last() =~= Seq::<char>::empty());
        assert(number_said(Seq::<char>::empty()) == 0);
    }
}

/// The text of a number is made of decimal digits, says the number, and has no
/// zero in front of it.
pub proof fn law_decimal_text_says_the_number(n: u64, text: String)
    requires
        call_ensures(to_decimal, (n,), text),
    ensures
        is_decimal_text(text@, n as int),
{
    lemma_decimal(n as nat);
}

/// A tree without levels has one leaf, and each level doubles the leaves.
pub proof fn law_each_level_doubles_the_leaves(levels: u32, leaves: u64, more: u64)
    requires
        levels < 63,
        call_ensures(tree_capacity, (levels,), leaves),
        call_ensures(tree_capacity, ((levels + 1) as u32,), more),
    ensures
        more == 2 * leaves,
        levels == 0 ==> leaves == 1,
{
    lemma_pow2_unfold((levels + 1) as nat);
    vstd::arithmetic::power2::lemma2_to64();
}

} // verus!
