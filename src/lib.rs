//! A two-party escrow: an initializer locks a deposit of one asset in a
//! vault that only the program can spend from, naming the amount of a second
//! asset wanted in return. A taker fulfils the trade in one atomic swap, or
//! the initializer cancels and takes the deposit back.
//!
//! `types` holds the records, `ledger` the address derivation and the rules
//! of a single transfer, `program` the accounts and escrows the program
//! holds, `escrow` the three operations, and `laws` what they guarantee
//! together.

pub mod escrow;
pub mod laws;
pub mod ledger;
pub mod program;
pub mod types;
