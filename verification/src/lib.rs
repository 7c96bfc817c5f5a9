//! A payments ledger: deposits, withdrawals and the dispute lifecycle,
//! applied one command at a time to per-client accounts.

pub mod adapters;
pub mod engine;
pub mod models;
