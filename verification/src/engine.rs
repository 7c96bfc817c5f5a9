//! The ledger and the rules by which commands change it.

pub mod laws;
pub mod ledger;
pub mod runner;
pub mod state;
