//! The ledger as a mathematical value, and what each command makes of it.
//!
//! A command that breaks a rule leaves the ledger as it was. A command whose
//! arithmetic cannot be held has no outcome: its step is an error that names
//! the operation.

use crate::models::account::Account;
use crate::models::amount::{Amount, Overflow};
use crate::models::command::Command;
use crate::models::transaction::{TransactionRecord, TransactionStatus};
use vstd::prelude::*;

verus! {

/// All accounts by client, and all recorded transactions by their id.
pub ghost struct Ledger {
    pub accounts: Map<u16, Account>,
    pub transactions: Map<u32, TransactionRecord>,
}

impl Ledger {
    /// The ledger before any command.
    pub open spec fn empty() -> Ledger {
        Ledger { accounts: Map::empty(), transactions: Map::empty() }
    }

    /// Whether the client has an account and it is locked.
    pub open spec fn is_locked(self, client: u16) -> bool {
        self.accounts.contains_key(client) && self.accounts[client].locked
    }

    /// The client's account, or a fresh one where the client has none.
    pub open spec fn account_or_new(self, client: u16) -> Account {
        if self.accounts.contains_key(client) {
            self.accounts[client]
        } else {
            Account::new(client)
        }
    }

    /// Whether a deposit or withdrawal under this id for this client gets
    /// past the first two checks: the id is new, and the account is not
    /// locked.
    pub open spec fn admits(self, client: u16, tx: u32) -> bool {
        !self.transactions.contains_key(tx) && !self.is_locked(client)
    }

    /// Whether the transaction is recorded, belongs to the client, and has
    /// the given status.
    pub open spec fn has_record(self, client: u16, tx: u32, status: TransactionStatus) -> bool {
        &&& self.transactions.contains_key(tx)
        &&& self.transactions[tx].client_id == client
        &&& self.transactions[tx].status == status
    }

    /// Whether a dispute of this transaction by this client takes effect:
    /// the account is not locked and the transaction is a deposit of this
    /// client that is not in dispute and was not charged back.
    pub open spec fn can_dispute(self, client: u16, tx: u32) -> bool {
        &&& !self.is_locked(client)
        &&& self.has_record(client, tx, TransactionStatus::Normal)
        &&& self.transactions[tx].is_deposit
    }

    /// Whether a resolve of this transaction by this client takes effect.
    pub open spec fn can_resolve(self, client: u16, tx: u32) -> bool {
        &&& !self.is_locked(client)
        &&& self.has_record(client, tx, TransactionStatus::Disputed)
    }

    /// Whether a chargeback of this transaction by this client takes effect.
    pub open spec fn can_chargeback(self, client: u16, tx: u32) -> bool {
        &&& self.has_record(client, tx, TransactionStatus::Disputed)
        &&& self.accounts.contains_key(client)
        &&& !self.accounts[client].locked
    }

    /// This ledger with one account and one record written.
    pub open spec fn with(
        self,
        client: u16,
        account: Account,
        tx: u32,
        record: TransactionRecord,
    ) -> Ledger {
        Ledger {
            accounts: self.accounts.insert(client, account),
            transactions: self.transactions.insert(tx, record),
        }
    }

    /// The ledger after a deposit.
    pub open spec fn deposit(self, client: u16, tx: u32, amount: Amount) -> Result<
        Ledger,
        Overflow,
    > {
        if self.admits(client, tx) {
            match self.account_or_new(client).with_deposit(amount) {
                Ok(account) => {
                    let record = TransactionRecord::new(client, amount, true);
                    Ok(self.with(client, account, tx, record))
                },
                Err(overflow) => Err(overflow),
            }
        } else {
            Ok(self)
        }
    }

    /// The ledger after a withdrawal. One that the available funds do not
    /// cover leaves no record, but the client has an account from then on.
    pub open spec fn withdrawal(self, client: u16, tx: u32, amount: Amount) -> Result<
        Ledger,
        Overflow,
    > {
        if self.admits(client, tx) {
            let account = self.account_or_new(client);
            if account.covers(amount) {
                match account.with_withdrawal(amount) {
                    Ok(account) => {
                        let record = TransactionRecord::new(client, amount, false);
                        Ok(self.with(client, account, tx, record))
                    },
                    Err(overflow) => Err(overflow),
                }
            } else {
                Ok(Ledger { accounts: self.accounts.insert(client, account), ..self })
            }
        } else {
            Ok(self)
        }
    }

    /// The ledger after a dispute.
    pub open spec fn dispute(self, client: u16, tx: u32) -> Result<Ledger, Overflow> {
        if self.can_dispute(client, tx) {
            let record = self.transactions[tx];
            let disputed = record.with_status(TransactionStatus::Disputed);
            if self.accounts.contains_key(client) {
                match self.accounts[client].with_dispute(record.amount) {
                    Ok(account) => Ok(self.with(client, account, tx, disputed)),
                    Err(overflow) => Err(overflow),
                }
            } else {
                Ok(Ledger { transactions: self.transactions.insert(tx, disputed), ..self })
            }
        } else {
            Ok(self)
        }
    }

    /// The ledger after a resolve.
    pub open spec fn resolve(self, client: u16, tx: u32) -> Result<Ledger, Overflow> {
        if self.can_resolve(client, tx) {
            let record = self.transactions[tx];
            let resolved = record.with_status(TransactionStatus::Normal);
            if self.accounts.contains_key(client) {
                match self.accounts[client].with_resolve(record.amount) {
                    Ok(account) => Ok(self.with(client, account, tx, resolved)),
                    Err(overflow) => Err(overflow),
                }
            } else {
                Ok(Ledger { transactions: self.transactions.insert(tx, resolved), ..self })
            }
        } else {
            Ok(self)
        }
    }

    /// The ledger after a chargeback.
    pub open spec fn chargeback(self, client: u16, tx: u32) -> Result<Ledger, Overflow> {
        if self.can_chargeback(client, tx) {
            let record = self.transactions[tx];
            let charged_back = record.with_status(TransactionStatus::ChargedBack);
            match self.accounts[client].with_chargeback(record.amount) {
                Ok(account) => Ok(self.with(client, account, tx, charged_back)),
                Err(overflow) => Err(overflow),
            }
        } else {
            Ok(self)
        }
    }

    /// The ledger after one command.
    pub open spec fn step(self, command: Command) -> Result<Ledger, Overflow> {
        match command {
            Command::Deposit { client_id, tx, amount } => self.deposit(client_id, tx, amount),
            Command::Withdrawal { client_id, tx, amount } => self.withdrawal(client_id, tx, amount),
            Command::Dispute { client_id, tx } => self.dispute(client_id, tx),
            Command::Resolve { client_id, tx } => self.resolve(client_id, tx),
            Command::Chargeback { client_id, tx } => self.chargeback(client_id, tx),
        }
    }

    /// The ledger after a sequence of commands, applied in order. The first
    /// command without an outcome ends the run with its error.
    pub open spec fn run(self, commands: Seq<Command>) -> Result<Ledger, Overflow>
        decreases commands.len(),
    {
        if commands.len() == 0 {
            Ok(self)
        } else {
            match self.run(commands.drop_last()) {
                Ok(ledger) => ledger.step(commands.last()),
                Err(overflow) => Err(overflow),
            }
        }
    }

    /// What holds of every ledger that commands have built: an account is
    /// kept under its own client id, the owner of a record has an account,
    /// only deposits are ever in dispute or charged back, and the owner of a
    /// transaction that was charged back is locked.
    pub open spec fn wf(self) -> bool {
        &&& forall|client: u16| #[trigger]
            self.accounts.contains_key(client) ==> self.accounts[client].client_id == client
        &&& forall|tx: u32| #[trigger]
            self.transactions.contains_key(tx) ==> {
                let record = self.transactions[tx];
                &&& self.accounts.contains_key(record.client_id)
                &&& record.status != TransactionStatus::Normal ==> record.is_deposit
                &&& record.status == TransactionStatus::ChargedBack
                    ==> self.accounts[record.client_id].locked
            }
    }
}

} // verus!
