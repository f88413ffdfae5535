//! A token ledger whose balances follow time: each account keeps a snapshot and
//! an equation family, and its balance is the equation evaluated on the time
//! elapsed since the snapshot.
//!
//! - `tokenizer`: the expression language, tokenized and compiled to a stack program.
//! - `equation`: the equation families, their formulas and parameters.
//! - `balance`: the balance of a snapshot under a family at a given time.
//! - `state`, `events`: the ledger's records.
//! - `instructions`: the transaction handlers.

use vstd::prelude::*;

pub mod balance;
pub mod equation;
pub mod error;
pub mod events;
pub mod instructions;
pub mod state;
pub mod text;
pub mod tokenizer;
pub mod utils;

verus! {

} // verus!
