use stellar::conversions::{
    scval_to_address_string, scval_to_bool, scval_to_field, scval_to_u256, scval_to_u32,
    scval_to_u64,
};
use stellar::contract_state::StateFetcher;
use stellar::error::{StateError, ValueKind};
use stellar::field::{Field, FIELD_ORDER_HI, FIELD_ORDER_LO};
use stellar::uint::U256;
use stellar::value::{ContractValue, TableEntry, UInt256Parts};
use stellar_xdr::curr as xdr;
use stellar_xdr::curr::WriteXdr;

fn symbol(name: &str) -> xdr::ScVal {
    xdr::ScVal::Symbol(xdr::ScSymbol::try_from(name).unwrap())
}

fn parts(n: u64) -> UInt256Parts {
    UInt256Parts { hi_hi: 0, hi_lo: 0, lo_hi: 0, lo_lo: n }
}

#[test]
fn each_kind_is_read_as_itself() {
    assert_eq!(scval_to_bool(&ContractValue::Bool(true)), Ok(true));
    assert_eq!(scval_to_u32(&ContractValue::U32(32)), Ok(32));
    assert_eq!(scval_to_u64(&ContractValue::U64(64)), Ok(64));
    let address = ContractValue::Address("GABC".to_string());
    assert_eq!(scval_to_address_string(&address), Ok("GABC".to_string()));
    let words = UInt256Parts { hi_hi: 1, hi_lo: 2, lo_hi: 3, lo_lo: 4 };
    let number = U256 { hi: (1 << 64) + 2, lo: (3 << 64) + 4 };
    assert_eq!(scval_to_u256(&ContractValue::U256(words)), Ok(number));
}

#[test]
fn no_kind_is_read_as_another() {
    let expected = |kind: ValueKind| StateError::UnexpectedValue { expected: kind };
    let number = ContractValue::U32(1);
    assert_eq!(scval_to_bool(&number), Err(expected(ValueKind::Bool)));
    assert_eq!(scval_to_u64(&number), Err(expected(ValueKind::U64)));
    assert_eq!(scval_to_u256(&number), Err(expected(ValueKind::U256)));
    assert_eq!(scval_to_address_string(&number), Err(expected(ValueKind::Address)));
    assert_eq!(scval_to_u32(&ContractValue::U64(1)), Err(expected(ValueKind::U32)));
}

#[test]
fn field_survives_contract_value() {
    let largest = U256 { hi: FIELD_ORDER_HI, lo: FIELD_ORDER_LO - 1 };
    let element = Field::try_from_u256(largest).unwrap();
    let value = StateFetcher::field_to_scval_u256(element);
    assert_eq!(
        value,
        ContractValue::U256(UInt256Parts {
            hi_hi: 0x30644e72e131a029,
            hi_lo: 0xb85045b68181585d,
            lo_hi: 0x2833e84879b97091,
            lo_lo: 0x43e1f593f0000000,
        })
    );
    assert_eq!(scval_to_field(&value), Ok(element));
}

#[test]
fn number_that_is_no_element_is_refused() {
    let order = ContractValue::U256(UInt256Parts {
        hi_hi: 0x30644e72e131a029,
        hi_lo: 0xb85045b68181585d,
        lo_hi: 0x2833e84879b97091,
        lo_lo: 0x43e1f593f0000001,
    });
    assert_eq!(scval_to_field(&order), Err(StateError::FieldOutOfRange));
    let expected = StateError::UnexpectedValue { expected: ValueKind::U256 };
    assert_eq!(scval_to_field(&ContractValue::Bool(false)), Err(expected));
}

#[test]
fn plain_xdr_values_are_taken_apart() {
    assert_eq!(ContractValue::from_xdr(xdr::ScVal::Bool(true)), ContractValue::Bool(true));
    assert_eq!(ContractValue::from_xdr(xdr::ScVal::U32(9)), ContractValue::U32(9));
    assert_eq!(ContractValue::from_xdr(xdr::ScVal::U64(9)), ContractValue::U64(9));
    assert_eq!(
        ContractValue::from_xdr(symbol("found")),
        ContractValue::Symbol(b"found".to_vec())
    );
    let words = xdr::UInt256Parts { hi_hi: 1, hi_lo: 2, lo_hi: 3, lo_lo: 4 };
    assert_eq!(
        ContractValue::from_xdr(xdr::ScVal::U256(words)),
        ContractValue::U256(UInt256Parts { hi_hi: 1, hi_lo: 2, lo_hi: 3, lo_lo: 4 })
    );
    assert_eq!(
        ContractValue::from_xdr(xdr::ScVal::I32(-1)),
        ContractValue::Other(xdr::ScVal::I32(-1))
    );
}

#[test]
fn xdr_addresses_become_their_text() {
    let hash = [3u8; 32];
    let contract = xdr::ScAddress::Contract(xdr::ContractId(xdr::Hash(hash)));
    assert_eq!(
        ContractValue::from_xdr(xdr::ScVal::Address(contract)),
        ContractValue::Address(stellar_strkey::Contract(hash).to_string())
    );
    let key = [4u8; 32];
    let account = xdr::ScAddress::Account(xdr::AccountId(xdr::PublicKey::PublicKeyTypeEd25519(
        xdr::Uint256(key),
    )));
    let text = stellar_strkey::ed25519::PublicKey(key).to_string();
    assert!(text.starts_with('G'));
    assert_eq!(
        ContractValue::from_xdr(xdr::ScVal::Address(account)),
        ContractValue::Address(text)
    );
}

#[test]
fn nested_xdr_values_are_taken_apart() {
    let list = xdr::ScVal::Vec(Some(xdr::ScVec(
        xdr::VecM::try_from(vec![xdr::ScVal::U32(1), xdr::ScVal::Vec(None), xdr::ScVal::U32(2)])
            .unwrap(),
    )));
    let table = xdr::ScVal::Map(Some(xdr::ScMap(
        xdr::VecM::try_from(vec![
            xdr::ScMapEntry { key: symbol("a"), val: list },
            xdr::ScMapEntry { key: xdr::ScVal::U32(3), val: xdr::ScVal::Map(None) },
        ])
        .unwrap(),
    )));
    let expected = ContractValue::Table(Some(vec![
        TableEntry {
            key: ContractValue::Symbol(b"a".to_vec()),
            val: ContractValue::List(Some(vec![
                ContractValue::U32(1),
                ContractValue::List(None),
                ContractValue::U32(2),
            ])),
        },
        TableEntry { key: ContractValue::U32(3), val: ContractValue::Table(None) },
    ]));
    let text = table.to_xdr_base64(xdr::Limits::none()).unwrap();
    assert_eq!(ContractValue::from_xdr_base64(&text).unwrap(), expected);
    assert_eq!(ContractValue::from_xdr(table), expected);
}

#[test]
fn base64_text_of_a_number_is_read() {
    // The kind of a 32-bit number, then the number seven.
    assert_eq!(ContractValue::from_xdr_base64("AAAAAwAAAAc="), Ok(ContractValue::U32(7)));
}

#[test]
fn text_that_is_no_value_is_refused() {
    assert_eq!(ContractValue::from_xdr_base64("not base64!"), Err(StateError::InvalidRetval));
    assert_eq!(ContractValue::from_xdr_base64(""), Err(StateError::InvalidRetval));
    assert_eq!(ContractValue::from_xdr_base64("AAAAAwAAAAcAAAAA"), Err(StateError::InvalidRetval));
}

#[test]
fn words_write_a_number() {
    assert_eq!(scval_to_u256(&ContractValue::U256(parts(12))), Ok(U256 { hi: 0, lo: 12 }));
}
