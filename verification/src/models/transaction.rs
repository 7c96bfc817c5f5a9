//! Input rows, and the records the ledger keeps of applied transactions.

use crate::models::amount::Amount;
use crate::models::command::Command;
use vstd::prelude::*;
use vstd::string::*;

verus! {

/// One input row as it was read: the kind of transaction by its name, and an
/// amount that may be missing.
#[derive(Debug)]
pub struct TransactionInput {
    pub kind: String,
    pub client_id: u16,
    pub tx: u32,
    pub amount: Option<Amount>,
}

impl TransactionInput {
    /// What the row decodes to: the command it stands for, or the reason why
    /// it stands for none. The kind is matched letter for letter.
    pub open spec fn decoded(&self) -> Result<Command, Seq<char>> {
        if self.kind@ == "deposit"@ {
            match self.amount {
                Some(amount) => Ok(
                    Command::Deposit { client_id: self.client_id, tx: self.tx, amount },
                ),
                None => Err("Missing amount in deposit"@),
            }
        } else if self.kind@ == "withdrawal"@ {
            match self.amount {
                Some(amount) => Ok(
                    Command::Withdrawal { client_id: self.client_id, tx: self.tx, amount },
                ),
                None => Err("Missing amount in withdrawal"@),
            }
        } else if self.kind@ == "dispute"@ {
            Ok(Command::Dispute { client_id: self.client_id, tx: self.tx })
        } else if self.kind@ == "resolve"@ {
            Ok(Command::Resolve { client_id: self.client_id, tx: self.tx })
        } else if self.kind@ == "chargeback"@ {
            Ok(Command::Chargeback { client_id: self.client_id, tx: self.tx })
        } else {
            Err("Unknown transaction type: "@ + self.kind@)
        }
    }

    /// A row with the given fields.
    pub fn new(kind: String, client_id: u16, tx: u32, amount: Option<Amount>) -> (r:
        TransactionInput)
        ensures
            r.kind == kind,
            r.client_id == client_id,
            r.tx == tx,
            r.amount == amount,
    {
        TransactionInput { kind, client_id, tx, amount }
    }

    /// Decodes the row into a command. A deposit or withdrawal without an
    /// amount and a kind that is not known are refused, with the reason as
    /// text. An amount on a dispute, resolve or chargeback is dropped.
    pub fn to_command(&self) -> (r: Result<Command, String>)
        ensures
            match r {
                Ok(command) => self.decoded() == Ok::<Command, Seq<char>>(command),
                Err(reason) => self.decoded() == Err::<Command, Seq<char>>(reason@),
            },
    {
        if self.kind == String::from_str("deposit") {
            match self.amount {
                Some(amount) => Ok(
                    Command::Deposit { client_id: self.client_id, tx: self.tx, amount },
                ),
                None => Err(String::from_str("Missing amount in deposit")),
            }
        } else if self.kind == String::from_str("withdrawal") {
            match self.amount {
                Some(amount) => Ok(
                    Command::Withdrawal { client_id: self.client_id, tx: self.tx, amount },
                ),
                None => Err(String::from_str("Missing amount in withdrawal")),
            }
        } else if self.kind == String::from_str("dispute") {
            Ok(Command::Dispute { client_id: self.client_id, tx: self.tx })
        } else if self.kind == String::from_str("resolve") {
            Ok(Command::Resolve { client_id: self.client_id, tx: self.tx })
        } else if self.kind == String::from_str("chargeback") {
            Ok(Command::Chargeback { client_id: self.client_id, tx: self.tx })
        } else {
            Err(String::from_str("Unknown transaction type: ").concat(self.kind.as_str()))
        }
    }
}

/// Where a recorded transaction stands in the dispute lifecycle.
#[derive(Clone, Copy, Debug, PartialEq, Eq, Structural)]
pub enum TransactionStatus {
    Normal,
    Disputed,
    ChargedBack,
}

/// What the ledger remembers of an applied deposit or withdrawal.
#[derive(Clone, Copy, Debug)]
pub struct TransactionRecord {
    pub client_id: u16,
    pub amount: Amount,
    pub is_deposit: bool,
    pub status: TransactionStatus,
}

impl TransactionRecord {
    /// The record of a deposit or withdrawal that has just been applied.
    pub open spec fn spec_new(
        client_id: u16,
        amount: Amount,
        is_deposit: bool,
    ) -> TransactionRecord {
        TransactionRecord { client_id, amount, is_deposit, status: TransactionStatus::Normal }
    }

    /// This record with another status.
    pub open spec fn spec_with_status(self, status: TransactionStatus) -> TransactionRecord {
        TransactionRecord { status, ..self }
    }

    /// Records a deposit or withdrawal that has just been applied.
    #[verifier::when_used_as_spec(spec_new)]
    pub fn new(client_id: u16, amount: Amount, is_deposit: bool) -> (r: TransactionRecord)
        ensures
            r == TransactionRecord::spec_new(client_id, amount, is_deposit),
    {
        TransactionRecord { client_id, amount, is_deposit, status: TransactionStatus::Normal }
    }

    /// This record with another status.
    #[verifier::when_used_as_spec(spec_with_status)]
    pub fn with_status(self, status: TransactionStatus) -> (r: TransactionRecord)
        ensures
            r == self.spec_with_status(status),
    {
        TransactionRecord {
            client_id: self.client_id,
            amount: self.amount,
            is_deposit: self.is_deposit,
            status,
        }
    }
}

} // verus!
