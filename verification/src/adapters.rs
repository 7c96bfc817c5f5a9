//! What the ledger hands to the outside.

pub mod output;
