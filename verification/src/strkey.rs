//! Account and contract addresses in their text form.
use std::str::FromStr;
use stellar_strkey::{ed25519, Contract, DecodeError};
use vstd::prelude::*;

verus! {

/// The error of the address decoder.
#[verifier::external_type_specification]
#[verifier::external_body]
pub struct ExDecodeError(DecodeError);

/// What `stellar_strkey::ed25519::PublicKey::from_string` reads from a text:
/// the bytes of the key, or nothing where it fails.
pub uninterp spec fn account_key_of(text: Seq<char>) -> Option<Seq<u8>>;

/// What `stellar_strkey::Contract::from_str` reads from a text: the bytes of
/// the contract id, or nothing where it fails.
pub uninterp spec fn contract_hash_of(text: Seq<char>) -> Option<Seq<u8>>;

/// Calls `stellar_strkey::ed25519::PublicKey::from_string`. The result is a
/// function of the text alone.
#[verifier::external_body]
pub(crate) fn decode_account(text: &str) -> (r: Result<[u8; 32], DecodeError>)
    ensures
        match r {
            Ok(key) => account_key_of(text@) == Some(key@),
            Err(_) => account_key_of(text@) is None,
        },
{
    ed25519::PublicKey::from_string(text).map(|key| key.0)
}

/// Calls `stellar_strkey::Contract::from_str`. The result is a function of the
/// text alone.
#[verifier::external_body]
pub(crate) fn decode_contract(text: &str) -> (r: Result<[u8; 32], DecodeError>)
    ensures
        match r {
            Ok(hash) => contract_hash_of(text@) == Some(hash@),
            Err(_) => contract_hash_of(text@) is None,
        },
{
    Contract::from_str(text).map(|contract| contract.0)
}

} // verus!
