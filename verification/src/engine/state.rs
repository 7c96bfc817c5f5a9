//! The ledger in memory.

use crate::engine::laws::lemma_step_keeps_wf;
use crate::engine::ledger::Ledger;
use crate::models::account::Account;
use crate::models::amount::Overflow;
use crate::models::command::Command;
use crate::models::transaction::{TransactionRecord, TransactionStatus};
use std::collections::HashMap;
use vstd::prelude::*;
use vstd::std_specs::hash::*;

verus! {

broadcast use group_hash_axioms;

/// All client accounts and all recorded transactions.
pub struct State {
    /// Every account that a deposit or withdrawal has opened, by client.
    pub accounts: HashMap<u16, Account>,
    /// Every deposit and withdrawal that was applied, by transaction id.
    transactions: HashMap<u32, TransactionRecord>,
}

/// What one command writes: at most one account and at most one record.
struct Change {
    account: Option<(u16, Account)>,
    record: Option<(u32, TransactionRecord)>,
}

impl Change {
    /// The ledger with the change written.
    spec fn on(self, ledger: Ledger) -> Ledger {
        Ledger {
            accounts: match self.account {
                Some((client, account)) => ledger.accounts.insert(client, account),
                None => ledger.accounts,
            },
            transactions: match self.record {
                Some((tx, record)) => ledger.transactions.insert(tx, record),
                None => ledger.transactions,
            },
        }
    }
}

impl View for State {
    type V = Ledger;

    closed spec fn view(&self) -> Ledger {
        Ledger { accounts: self.accounts@, transactions: self.transactions@ }
    }
}

impl State {
    /// The accounts by client. Reading the field gives the same map.
    pub fn accounts(&self) -> (accounts: &HashMap<u16, Account>)
        ensures
            accounts@ == self@.accounts,
    {
        &self.accounts
    }

    /// A ledger without accounts or transactions.
    pub fn new() -> (state: State)
        ensures
            state@ == Ledger::empty(),
            state@.wf(),
    {
        State { accounts: HashMap::new(), transactions: HashMap::new() }
    }

    /// The record of a transaction, where the ledger has one.
    pub fn transaction(&self, tx: u32) -> (r: Option<TransactionRecord>)
        ensures
            r == (if self@.transactions.contains_key(tx) {
                Some(self@.transactions[tx])
            } else {
                None
            }),
    {
        match self.transactions.get(&tx) {
            Some(record) => Some(*record),
            None => None,
        }
    }

    /// The account of a client, where the client has one.
    pub fn account(&self, client: u16) -> (r: Option<Account>)
        ensures
            r == (if self@.accounts.contains_key(client) {
                Some(self@.accounts[client])
            } else {
                None
            }),
    {
        match self.accounts.get(&client) {
            Some(account) => Some(*account),
            None => None,
        }
    }

    /// Works out what a command writes, without writing it.
    fn plan(&self, command: Command) -> (r: Result<Change, Overflow>)
        ensures
            match r {
                Ok(change) => self@.step(command) == Ok::<Ledger, Overflow>(change.on(self@)),
                Err(overflow) => self@.step(command) == Err::<Ledger, Overflow>(overflow),
            },
    {
        let nothing = Change { account: None, record: None };
        match command {
            Command::Deposit { client_id, tx, amount } => {
                if self.transactions.contains_key(&tx) {
                    return Ok(nothing);
                }
                let account = match self.account(client_id) {
                    Some(account) => account,
                    None => Account::new(client_id),
                };
                if account.locked {
                    return Ok(nothing);
                }
                match account.deposit(amount) {
                    Ok(account) => Ok(
                        Change {
                            account: Some((client_id, account)),
                            record: Some((tx, TransactionRecord::new(client_id, amount, true))),
                        },
                    ),
                    Err(overflow) => Err(overflow),
                }
            },
            Command::Withdrawal { client_id, tx, amount } => {
                if self.transactions.contains_key(&tx) {
                    return Ok(nothing);
                }
                let account = match self.account(client_id) {
                    Some(account) => account,
                    None => Account::new(client_id),
                };
                if account.locked {
                    return Ok(nothing);
                }
                if !account.covers(amount) {
                    return Ok(Change { account: Some((client_id, account)), record: None });
                }
                match account.withdraw(amount) {
                    Ok(account) => Ok(
                        Change {
                            account: Some((client_id, account)),
                            record: Some((tx, TransactionRecord::new(client_id, amount, false))),
                        },
                    ),
                    Err(overflow) => Err(overflow),
                }
            },
            Command::Dispute { client_id, tx } => {
                let account = self.account(client_id);
                if let Some(account) = account {
                    if account.locked {
                        return Ok(nothing);
                    }
                }
                let record = match self.transaction(tx) {
                    Some(record) => record,
                    None => {
                        return Ok(nothing);
                    },
                };
                if record.client_id != client_id || !record.is_deposit || record.status
                    != TransactionStatus::Normal {
                    return Ok(nothing);
                }
                let disputed = record.with_status(TransactionStatus::Disputed);
                match account {
                    Some(account) => match account.dispute(record.amount) {
                        Ok(account) => Ok(
                            Change {
                                account: Some((client_id, account)),
                                record: Some((tx, disputed)),
                            },
                        ),
                        Err(overflow) => Err(overflow),
                    },
                    None => Ok(Change { account: None, record: Some((tx, disputed)) }),
                }
            },
            Command::Resolve { client_id, tx } => {
                let account = self.account(client_id);
                if let Some(account) = account {
                    if account.locked {
                        return Ok(nothing);
                    }
                }
                let record = match self.transaction(tx) {
                    Some(record) => record,
                    None => {
                        return Ok(nothing);
                    },
                };
                if record.client_id != client_id || record.status != TransactionStatus::Disputed {
                    return Ok(nothing);
                }
                let resolved = record.with_status(TransactionStatus::Normal);
                match account {
                    Some(account) => match account.resolve(record.amount) {
                        Ok(account) => Ok(
                            Change {
                                account: Some((client_id, account)),
                                record: Some((tx, resolved)),
                            },
                        ),
                        Err(overflow) => Err(overflow),
                    },
                    None => Ok(Change { account: None, record: Some((tx, resolved)) }),
                }
            },
            Command::Chargeback { client_id, tx } => {
                let record = match self.transaction(tx) {
                    Some(record) => record,
                    None => {
                        return Ok(nothing);
                    },
                };
                if record.client_id != client_id || record.status != TransactionStatus::Disputed {
                    return Ok(nothing);
                }
                let account = match self.account(client_id) {
                    Some(account) => account,
                    None => {
                        return Ok(nothing);
                    },
                };
                if account.locked {
                    return Ok(nothing);
                }
                match account.chargeback(record.amount) {
                    Ok(account) => Ok(
                        Change {
                            account: Some((client_id, account)),
                            record: Some(
                                (tx, record.with_status(TransactionStatus::ChargedBack)),
                            ),
                        },
                    ),
                    Err(overflow) => Err(overflow),
                }
            },
        }
    }

    /// Writes what a command was found to change.
    fn commit(&mut self, change: Change)
        ensures
            final(self)@ == change.on(old(self)@),
    {
        if let Some((client, account)) = change.account {
            self.accounts.insert(client, account);
        }
        if let Some((tx, record)) = change.record {
            self.transactions.insert(tx, record);
        }
    }

    /// Applies one command to the ledger. A command that breaks a rule of
    /// the ledger changes nothing.
    ///
    /// The balances that the command asks for must be within what an amount
    /// can hold; [`State::try_process_single_command`] asks for nothing.
    pub fn process_single_command(&mut self, cmd: Command)
        requires
            old(self)@.step(cmd) is Ok,
        ensures
            old(self)@.step(cmd) == Ok::<Ledger, Overflow>(final(self)@),
            old(self)@.wf() ==> final(self)@.wf(),
    {
        match self.plan(cmd) {
            Ok(change) => self.commit(change),
            // The command has an outcome, so there is no error to find.
            Err(_) => {},
        }
        proof {
            if old(self)@.wf() {
                lemma_step_keeps_wf(old(self)@, cmd, self@);
            }
        }
    }

    /// Applies one command to the ledger where its balances can be held.
    /// Where they cannot, the ledger stays as it was and the error names the
    /// operation that went out of range.
    pub fn try_process_single_command(&mut self, cmd: Command) -> (r: Result<(), Overflow>)
        ensures
            match r {
                Ok(()) => old(self)@.step(cmd) == Ok::<Ledger, Overflow>(final(self)@),
                Err(overflow) => {
                    &&& old(self)@.step(cmd) == Err::<Ledger, Overflow>(overflow)
                    &&& final(self)@ == old(self)@
                },
            },
            old(self)@.wf() ==> final(self)@.wf(),
    {
        match self.plan(cmd) {
            Ok(_) => {
                self.process_single_command(cmd);
                Ok(())
            },
            Err(overflow) => Err(overflow),
        }
    }
}

} // verus!
