//! Reads the state of a privacy pool and of the two contracts that watch over
//! its members, and builds proofs that a key is not in their sparse Merkle tree.
//!
//! The library does no input or output. It says what to ask of the network, and
//! turns what the network answered into plain values.
pub mod contract_state;
pub mod conversions;
pub mod decimal;
pub mod error;
pub mod field;
pub mod find_result;
pub mod laws;
pub mod nonmembership;
pub mod strkey;
pub mod symbol;
pub mod transaction;
pub mod types;
pub mod uint;
pub mod value;
