//! The values the ledger works on.

pub mod account;
pub mod amount;
pub mod command;
pub mod transaction;
