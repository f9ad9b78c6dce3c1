use stellar::contract_state::{tree_capacity, StateFetcher};
use stellar::decimal::to_decimal;
use stellar::error::StateError;
use stellar::field::{Field, FIELD_ORDER_HI, FIELD_ORDER_LO};
use stellar::uint::{be_u64, U256};

fn counting_bytes() -> [u8; 32] {
    let mut bytes = [0u8; 32];
    for i in 0..32 {
        bytes[i] = (i + 1) as u8;
    }
    bytes
}

#[test]
fn big_endian_bytes_are_read_most_significant_first() {
    let n = U256::from_be_bytes(&counting_bytes());
    assert_eq!(n.hi, 0x0102030405060708090a0b0c0d0e0f10);
    assert_eq!(n.lo, 0x1112131415161718191a1b1c1d1e1f20);
}

#[test]
fn little_endian_bytes_are_read_least_significant_first() {
    let n = U256::from_le_bytes(&counting_bytes());
    assert_eq!(n.hi, 0x201f1e1d1c1b1a191817161514131211);
    assert_eq!(n.lo, 0x100f0e0d0c0b0a090807060504030201);
}

#[test]
fn u256_survives_its_bytes() {
    let n = U256 { hi: u128::MAX - 5, lo: 0x1234_5678_9abc };
    let mut be = [0xffu8; 32];
    n.to_big_endian(&mut be);
    assert_eq!(be[0], 0xff);
    assert_eq!(be[15], 0xfa);
    assert_eq!(be[31], 0xbc);
    assert_eq!(U256::from_be_bytes(&be), n);
}

#[test]
fn words_are_read_from_bytes() {
    let bytes = counting_bytes();
    assert_eq!(be_u64(&bytes, 0), 0x0102030405060708);
    assert_eq!(be_u64(&bytes, 24), 0x191a1b1c1d1e1f20);
}

#[test]
fn field_takes_numbers_below_its_order() {
    let largest = U256 { hi: FIELD_ORDER_HI, lo: FIELD_ORDER_LO - 1 };
    let order = U256 { hi: FIELD_ORDER_HI, lo: FIELD_ORDER_LO };
    let above = U256 { hi: FIELD_ORDER_HI + 1, lo: 0 };
    let f = Field::try_from_u256(largest).unwrap();
    assert_eq!(U256::from_be_bytes(&f.to_be_bytes()), largest);
    assert_eq!(Field::try_from_u256(order), Err(StateError::FieldOutOfRange));
    assert_eq!(Field::try_from_u256(above), Err(StateError::FieldOutOfRange));
    assert!(Field::try_from_u256(U256 { hi: FIELD_ORDER_HI - 1, lo: u128::MAX }).is_ok());
}

#[test]
fn field_is_read_from_little_endian_bytes() {
    let mut bytes = [0u8; 32];
    bytes[0] = 5;
    bytes[1] = 1;
    let f = Field::try_from_le_bytes(bytes).unwrap();
    assert_eq!(f, Field::try_from_u256(U256 { hi: 0, lo: 261 }).unwrap());
    assert!(!f.is_zero());
    assert_eq!(Field::try_from_le_bytes([0xff; 32]), Err(StateError::FieldOutOfRange));
}

#[test]
fn zero_is_the_only_zero() {
    assert!(Field::zero().is_zero());
    assert_eq!(Field::zero().to_be_bytes(), [0u8; 32]);
    assert!(!Field::try_from_u256(U256 { hi: 1, lo: 0 }).unwrap().is_zero());
    assert!(!Field::try_from_u256(U256 { hi: 0, lo: 1 }).unwrap().is_zero());
}

#[test]
fn decimal_text_has_no_leading_zeros() {
    assert_eq!(to_decimal(0), "0");
    assert_eq!(to_decimal(7), "7");
    assert_eq!(to_decimal(10), "10");
    assert_eq!(to_decimal(1203), "1203");
    assert_eq!(to_decimal(4_567_890_000), "4567890000");
    assert_eq!(to_decimal(u64::MAX), "18446744073709551615");
}

#[test]
fn decimal_texts_of_different_numbers_differ() {
    assert!(to_decimal(1) != to_decimal(10));
    assert!(to_decimal(100) != to_decimal(101));
}

#[test]
fn amounts_fit_up_to_the_largest_i128() {
    let largest = U256 { hi: 0, lo: i128::MAX as u128 };
    let above = U256 { hi: 0, lo: i128::MAX as u128 + 1 };
    let wide = U256 { hi: 1, lo: 0 };
    assert_eq!(StateFetcher::u256_to_i128_checked(largest, "amount"), Ok(i128::MAX));
    assert_eq!(StateFetcher::u256_to_i128_checked(U256 { hi: 0, lo: 42 }, "amount"), Ok(42));
    let error = StateError::DoesNotFitI128 { what: "amount" };
    assert_eq!(StateFetcher::u256_to_i128_checked(above, "amount"), Err(error));
    let error = StateError::DoesNotFitI128 { what: "amount" };
    assert_eq!(StateFetcher::u256_to_i128_checked(wide, "amount"), Err(error));
}

#[test]
fn tree_capacity_is_a_power_of_two() {
    assert_eq!(tree_capacity(0), 1);
    assert_eq!(tree_capacity(10), 1024);
    assert_eq!(tree_capacity(63), 1 << 63);
}
