//! On-chain metadata schema for a non-fungible-token contract.
//!
//! The crate defines the contract-level metadata record and the per-token
//! metadata record (current and previous layouts), a validator that checks
//! the structural invariants of each record, a byte-exact binary codec and a
//! textual codec for every record, and the one-shot migration that rewrites
//! a previous-layout record under the current layout.

pub mod errors;
pub mod codec;
pub mod contract;
pub mod token;
pub mod previous;
pub mod migrate;
pub mod text;
