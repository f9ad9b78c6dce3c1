//! Symbols: the short names of contract functions and of the fields of a
//! contract's structures.
use stellar_xdr::curr::{ScSymbol, StringM};
use vstd::prelude::*;
use vstd::utf8::{decode_utf8, encode_utf8, valid_utf8};

verus! {

/// The most bytes that a symbol can have.
pub const SYMBOL_LIMIT: usize = 32;

/// The text that the bytes of a symbol encode, where they are UTF-8.
pub open spec fn symbol_text_of(bytes: Seq<u8>) -> Option<Seq<char>> {
    if bytes.len() <= u32::MAX && valid_utf8(bytes) {
        Some(decode_utf8(bytes))
    } else {
        None
    }
}

/// Calls `stellar_xdr::curr::ScSymbol::try_from` on a string. It takes any text
/// whose UTF-8 form is no longer than [`SYMBOL_LIMIT`] bytes, and the symbol
/// holds those bytes.
#[verifier::external_body]
pub(crate) fn symbol_from_str(text: &str) -> (r: Result<Vec<u8>, ()>)
    ensures
        match r {
            Ok(bytes) => bytes@ == encode_utf8(text@) && bytes@.len() <= SYMBOL_LIMIT,
            Err(_) => encode_utf8(text@).len() > SYMBOL_LIMIT,
        },
{
    ScSymbol::try_from(text).map(|symbol| symbol.into())
}

/// What the error of `stellar_xdr::curr::StringM::to_utf8_string` says of these
/// bytes, where they are not the bytes of a text.
pub uninterp spec fn symbol_failure(bytes: Seq<u8>) -> Seq<char>;

/// Calls `stellar_xdr::curr::StringM::to_utf8_string` on a string of these
/// bytes. It gives the text that the bytes encode, and fails where they are not
/// UTF-8, or are more than such a string can have. What its error says is a
/// function of the bytes alone.
#[verifier::external_body]
pub(crate) fn symbol_text(bytes: &[u8]) -> (r: Result<String, String>)
    ensures
        match r {
            Ok(text) => symbol_text_of(bytes@) == Some(text@),
            Err(failure) => symbol_text_of(bytes@) is None && failure@ == symbol_failure(bytes@),
        },
{
    StringM::<4294967295>::try_from(bytes).and_then(|s| s.to_utf8_string()).map_err(
        |e| e.to_string(),
    )
}

} // verus!
