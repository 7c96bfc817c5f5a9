//! The commands the ledger takes.

use crate::models::amount::Amount;
use vstd::prelude::*;

verus! {

/// One decoded instruction for the ledger.
#[derive(Clone, Copy, Debug)]
pub enum Command {
    Deposit { client_id: u16, tx: u32, amount: Amount },
    Withdrawal { client_id: u16, tx: u32, amount: Amount },
    Dispute { client_id: u16, tx: u32 },
    Resolve { client_id: u16, tx: u32 },
    Chargeback { client_id: u16, tx: u32 },
}

impl Command {
    /// The client the command names.
    pub open spec fn client(self) -> u16 {
        match self {
            Command::Deposit { client_id, .. } => client_id,
            Command::Withdrawal { client_id, .. } => client_id,
            Command::Dispute { client_id, .. } => client_id,
            Command::Resolve { client_id, .. } => client_id,
            Command::Chargeback { client_id, .. } => client_id,
        }
    }

    /// The transaction the command names.
    pub open spec fn transaction(self) -> u32 {
        match self {
            Command::Deposit { tx, .. } => tx,
            Command::Withdrawal { tx, .. } => tx,
            Command::Dispute { tx, .. } => tx,
            Command::Resolve { tx, .. } => tx,
            Command::Chargeback { tx, .. } => tx,
        }
    }

    /// Whether the command moves funds in or out: a deposit or a withdrawal.
    pub open spec fn is_movement(self) -> bool {
        self is Deposit || self is Withdrawal
    }
}

} // verus!
