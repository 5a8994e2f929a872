//! Authority and relationship checks for the lifecycle of a fungible-token
//! mint and its accounts. Each instruction is validated against the records
//! it is handed and, when permitted, yields the single ledger call to make.

use vstd::prelude::*;

/// How each ledger call changes the records it names.
pub mod engine;
/// The failures an instruction can report, and their kinds.
pub mod error;
/// One validator per operation, with the accounts it reads.
pub mod instructions;
/// Public keys and their comparison.
pub mod keys;
/// Properties that hold across instructions and ledger calls.
pub mod laws;
/// The request handed to the ledger engine.
pub mod ledger;
/// Dispatch over every instruction.
pub mod program;
/// Mint and token-account records.
pub mod records;

verus! {

} // verus!
