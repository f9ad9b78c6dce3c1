//! Transactions that call a contract.
use stellar_xdr::curr::SorobanAuthorizationEntry;
use vstd::prelude::*;
use vstd::utf8::{encode_utf8, is_ascii_chars_encode_utf8};

use crate::contract_state::StateFetcher;
use crate::conversions::parts_nat;
use crate::error::{first_of, StateError};
use crate::field::{field_order, Field};
use crate::strkey::{account_key_of, contract_hash_of, decode_account, decode_contract};
use crate::symbol::{symbol_from_str, SYMBOL_LIMIT};
use crate::uint::{be_nat, be_u64, lemma_be_nat_concat, lemma_pow256_constants};
use crate::value::{ContractValue, UInt256Parts};

verus! {

/// An authorization entry of the XDR crate.
#[verifier::external_type_specification]
#[verifier::external_body]
pub struct ExXdrSorobanAuthorizationEntry(SorobanAuthorizationEntry);

/// An account: the bytes of its public key.
#[derive(Clone, Copy, Debug, PartialEq, Eq)]
pub enum MuxedAccount {
    Ed25519([u8; 32]),
}

/// The address of a contract: the bytes of its id.
#[derive(Clone, Copy, Debug, PartialEq, Eq)]
pub enum ScAddress {
    Contract([u8; 32]),
}

/// The sequence number of a transaction.
#[derive(Clone, Copy, Debug, PartialEq, Eq, Structural)]
pub struct SequenceNumber(pub i64);

/// The conditions under which a transaction is valid.
#[derive(Clone, Copy, Debug, PartialEq, Eq, Structural)]
pub enum Preconditions {
    Absent,
}

/// The note that a transaction carries.
#[derive(Clone, Copy, Debug, PartialEq, Eq, Structural)]
pub enum Memo {
    Absent,
}

/// The extension of a transaction.
#[derive(Clone, Copy, Debug, PartialEq, Eq, Structural)]
pub enum TransactionExt {
    V0,
}

/// A call of a contract function.
#[derive(Debug, PartialEq, Eq)]
pub struct InvokeContractArgs {
    pub contract_address: ScAddress,
    /// The bytes of the symbol that names the function.
    pub function_name: Vec<u8>,
    pub args: Vec<ContractValue>,
}

/// The operation that makes a contract call.
#[derive(Debug, PartialEq, Eq)]
pub struct InvokeHostFunctionOp {
    pub host_function: InvokeContractArgs,
    /// What the call is authorized to do, carried through as it came.
    pub auth: Vec<SorobanAuthorizationEntry>,
}

/// One operation of a transaction. Without a source account of its own it acts
/// for the source account of the transaction.
#[derive(Debug, PartialEq, Eq)]
pub struct Operation {
    pub source_account: Option<MuxedAccount>,
    pub body: InvokeHostFunctionOp,
}

/// A transaction.
#[derive(Debug, PartialEq, Eq)]
pub struct Transaction {
    pub source_account: MuxedAccount,
    pub fee: u32,
    pub seq_num: SequenceNumber,
    pub cond: Preconditions,
    pub memo: Memo,
    pub operations: Vec<Operation>,
    pub ext: TransactionExt,
}

/// A transaction with the signatures that it carries.
#[derive(Debug, PartialEq, Eq)]
pub struct TransactionEnvelope {
    pub tx: Transaction,
    /// XDR-encoded `DecoratedSignature` list.
    pub signatures: Vec<Vec<u8>>,
}

/// The failure of reading the addresses of a contract call, if it fails.
pub open spec fn addresses_error(source_account: Seq<char>, contract_id: Seq<char>) -> Option<
    StateError,
> {
    if account_key_of(source_account) is None {
        Some(StateError::InvalidSourceAccount)
    } else if contract_hash_of(contract_id) is None {
        Some(StateError::InvalidContractId)
    } else {
        None
    }
}

/// The failure of putting a contract call together, if it fails.
pub open spec fn call_error(function: Seq<char>, args_len: nat, auth_len: nat) -> Option<
    StateError,
> {
    if encode_utf8(function).len() > SYMBOL_LIMIT {
        Some(StateError::InvalidFunctionName)
    } else if args_len > u32::MAX || auth_len > u32::MAX {
        Some(StateError::LengthExceedsMax)
    } else {
        None
    }
}

/// Whether the account is the one that the address names.
pub open spec fn is_account(account: MuxedAccount, address: Seq<char>) -> bool {
    account matches MuxedAccount::Ed25519(key) && account_key_of(address) == Some(key@)
}

/// Whether the contract is the one that the address names.
pub open spec fn is_contract(contract: ScAddress, address: Seq<char>) -> bool {
    contract matches ScAddress::Contract(hash) && contract_hash_of(address) == Some(hash@)
}

/// Whether the envelope holds one unsigned transaction of the source account,
/// without preconditions, memo or extension, whose one operation is this
/// contract call.
pub open spec fn is_call(
    envelope: TransactionEnvelope,
    source: MuxedAccount,
    seq_num: SequenceNumber,
    fee: u32,
    contract: ScAddress,
    function: Seq<char>,
    args: Vec<ContractValue>,
    auth_entries: Vec<SorobanAuthorizationEntry>,
) -> bool {
    let tx = envelope.tx;
    let op = tx.operations@[0];
    let call = op.body.host_function;
    &&& envelope.signatures@.len() == 0
    &&& tx.source_account == source
    &&& tx.fee == fee
    &&& tx.seq_num == seq_num
    &&& tx.cond == Preconditions::Absent
    &&& tx.memo == Memo::Absent
    &&& tx.ext == TransactionExt::V0
    &&& tx.operations@.len() == 1
    &&& op.source_account is None
    &&& op.body.auth == auth_entries
    &&& call.contract_address == contract
    &&& call.function_name@ == encode_utf8(function)
    &&& call.args == args
}

/// Whether the envelope holds a contract call between these addresses.
pub open spec fn is_invocation(
    envelope: TransactionEnvelope,
    source_account: Seq<char>,
    seq_num: SequenceNumber,
    fee: u32,
    contract_id: Seq<char>,
    function: Seq<char>,
    args: Vec<ContractValue>,
    auth_entries: Vec<SorobanAuthorizationEntry>,
) -> bool {
    let source = envelope.tx.source_account;
    let contract = envelope.tx.operations@[0].body.host_function.contract_address;
    &&& is_account(source, source_account)
    &&& is_contract(contract, contract_id)
    &&& is_call(envelope, source, seq_num, fee, contract, function, args, auth_entries)
}

/// Whether the envelope holds the lookup of a key: a call of `find_key` with
/// the key as its one argument, under the sequence number zero and the fee 100.
pub open spec fn is_find_key_call(
    envelope: TransactionEnvelope,
    source_account: Seq<char>,
    contract_id: Seq<char>,
    key: nat,
) -> bool {
    let args = envelope.tx.operations@[0].body.host_function.args;
    let auth = envelope.tx.operations@[0].body.auth;
    &&& is_invocation(
        envelope,
        source_account,
        SequenceNumber(0),
        100,
        contract_id,
        "find_key"@,
        args,
        auth,
    )
    &&& auth@.len() == 0
    &&& args@.len() == 1
    &&& args@[0] matches ContractValue::U256(p)
    &&& parts_nat(p) == key
}

impl StateFetcher {
    /// The account that an account address names.
    pub fn muxed_account_from_g(account: &str) -> (r: Result<MuxedAccount, StateError>)
        ensures
            match r {
                Ok(source) => is_account(source, account@),
                Err(e) => e == StateError::InvalidSourceAccount && account_key_of(account@)
                    is None,
            },
    {
        match decode_account(account) {
            Ok(key) => Ok(MuxedAccount::Ed25519(key)),
            Err(_) => Err(StateError::InvalidSourceAccount),
        }
    }

    /// The contract that a contract address names.
    pub fn contract_scaddress_from_str(contract_id: &str) -> (r: Result<ScAddress, StateError>)
        ensures
            match r {
                Ok(contract) => is_contract(contract, contract_id@),
                Err(e) => e == StateError::InvalidContractId && contract_hash_of(contract_id@)
                    is None,
            },
    {
        match decode_contract(contract_id) {
            Ok(hash) => Ok(ScAddress::Contract(hash)),
            Err(_) => Err(StateError::InvalidContractId),
        }
    }

    /// A field element as a contract value.
    pub fn field_to_scval_u256(v: Field) -> (r: ContractValue)
        ensures
            r matches ContractValue::U256(p) && parts_nat(p) == v@,
            v@ < field_order(),
    {
        let be = v.to_be_bytes();
        proof {
            let a = be@.subrange(0, 8);
            let b = be@.subrange(8, 16);
            let c = be@.subrange(16, 24);
            let d = be@.subrange(24, 32);
            lemma_be_nat_concat(a, b);
            lemma_be_nat_concat(a + b, c);
            lemma_be_nat_concat(a + b + c, d);
            lemma_pow256_constants();
            assert(a + b + c + d =~= be@);
        }
        ContractValue::U256(
            UInt256Parts {
                hi_hi: be_u64(&be, 0),
                hi_lo: be_u64(&be, 8),
                lo_hi: be_u64(&be, 16),
                lo_lo: be_u64(&be, 24),
            },
        )
    }

    /// A transaction that calls a function of a contract.
    pub fn call_envelope(
        source: MuxedAccount,
        seq_num: SequenceNumber,
        fee: u32,
        contract_address: ScAddress,
        function: &str,
        args: Vec<ContractValue>,
        auth_entries: Vec<SorobanAuthorizationEntry>,
    ) -> (r: Result<TransactionEnvelope, StateError>)
        ensures
            match r {
                Ok(envelope) => call_error(function@, args@.len(), auth_entries@.len()) is None
                    && is_call(
                    envelope,
                    source,
                    seq_num,
                    fee,
                    contract_address,
                    function@,
                    args,
                    auth_entries,
                ),
                Err(e) => call_error(function@, args@.len(), auth_entries@.len()) == Some(e),
            },
    {
        let function_name = match symbol_from_str(function) {
            Ok(symbol) => symbol,
            Err(_) => {
                return Err(StateError::InvalidFunctionName);
            },
        };
        if args.len() as u64 > u32::MAX as u64 || auth_entries.len() as u64 > u32::MAX as u64 {
            return Err(StateError::LengthExceedsMax);
        }

        let invoke_args = InvokeContractArgs { contract_address, function_name, args };
        let invoke_op = InvokeHostFunctionOp { host_function: invoke_args, auth: auth_entries };
        let op = Operation { source_account: None, body: invoke_op };
        let mut operations: Vec<Operation> = Vec::new();
        operations.push(op);
        let tx = Transaction {
            source_account: source,
            fee,
            seq_num,
            cond: Preconditions::Absent,
            memo: Memo::Absent,
            operations,
            ext: TransactionExt::V0,
        };
        Ok(TransactionEnvelope { tx, signatures: Vec::new() })
    }

    /// A transaction that calls a function of the contract with this address,
    /// for the account with this address.
    pub fn build_invoke_contract_tx_envelope(
        source_account: &str,
        seq_num: SequenceNumber,
        fee: u32,
        contract_id: &str,
        function: &str,
        args: Vec<ContractValue>,
        auth_entries: Vec<SorobanAuthorizationEntry>,
    ) -> (r: Result<TransactionEnvelope, StateError>)
        ensures
            ({
                let error = first_of(
                    addresses_error(source_account@, contract_id@),
                    call_error(function@, args@.len(), auth_entries@.len()),
                );
                match r {
                    Ok(envelope) => error is None && is_invocation(
                        envelope,
                        source_account@,
                        seq_num,
                        fee,
                        contract_id@,
                        function@,
                        args,
                        auth_entries,
                    ),
                    Err(e) => error == Some(e),
                }
            }),
    {
        let source = Self::muxed_account_from_g(source_account)?;
        let contract_address = Self::contract_scaddress_from_str(contract_id)?;
        Self::call_envelope(source, seq_num, fee, contract_address, function, args, auth_entries)
    }

    /// A transaction that looks a key up, to be simulated and not submitted.
    pub fn build_find_key_simulation_tx(
        contract_id: &str,
        source_account: &str,
        key: Field,
    ) -> (r: Result<TransactionEnvelope, StateError>)
        ensures
            match r {
                Ok(envelope) => addresses_error(source_account@, contract_id@) is None
                    && is_find_key_call(envelope, source_account@, contract_id@, key@),
                Err(e) => addresses_error(source_account@, contract_id@) == Some(e),
            },
    {
        proof {
            reveal_strlit("find_key");
            is_ascii_chars_encode_utf8("find_key"@);
        }
        let mut args: Vec<ContractValue> = Vec::new();
        args.push(Self::field_to_scval_u256(key));
        Self::build_invoke_contract_tx_envelope(
            source_account,
            SequenceNumber(0),
            100,
            contract_id,
            "find_key",
            args,
            Vec::new(),
        )
    }
}

} // verus!
