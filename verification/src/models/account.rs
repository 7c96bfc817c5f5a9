//! Client accounts and the balance movements the ledger makes on them.

use crate::models::amount::{Amount, Overflow};
use vstd::prelude::*;

verus! {

/// The balances of one client.
#[derive(Clone, Copy, Debug)]
pub struct Account {
    pub client_id: u16,
    /// Funds the client can withdraw. A dispute may take this below zero.
    pub available: Amount,
    /// Funds set aside while a deposit is disputed.
    pub held: Amount,
    /// Set by a chargeback, and never cleared.
    pub locked: bool,
}

impl Account {
    /// The account of a client that has not been seen before.
    pub open spec fn spec_new(client_id: u16) -> Account {
        Account { client_id, available: Amount::zero(), held: Amount::zero(), locked: false }
    }

    /// Whether the available funds cover a withdrawal of `amount`.
    pub open spec fn spec_covers(&self, amount: Amount) -> bool {
        self.available.units() >= amount.units()
    }

    /// The account after a deposit of `amount`.
    pub open spec fn with_deposit(self, amount: Amount) -> Result<Account, Overflow> {
        match self.available.sum(amount) {
            Some(available) => Ok(Account { available, ..self }),
            None => Err(Overflow::Addition),
        }
    }

    /// The account after a withdrawal of `amount`.
    pub open spec fn with_withdrawal(self, amount: Amount) -> Result<Account, Overflow> {
        match self.available.difference(amount) {
            Some(available) => Ok(Account { available, ..self }),
            None => Err(Overflow::Subtraction),
        }
    }

    /// The account after a deposit of `amount` has come under dispute: the
    /// amount leaves the available funds and is held.
    pub open spec fn with_dispute(self, amount: Amount) -> Result<Account, Overflow> {
        match self.available.difference(amount) {
            Some(available) => match self.held.sum(amount) {
                Some(held) => Ok(Account { available, held, ..self }),
                None => Err(Overflow::Addition),
            },
            None => Err(Overflow::Subtraction),
        }
    }

    /// The account after a dispute over `amount` has been resolved: the
    /// amount is released from the held funds.
    pub open spec fn with_resolve(self, amount: Amount) -> Result<Account, Overflow> {
        match self.held.difference(amount) {
            Some(held) => match self.available.sum(amount) {
                Some(available) => Ok(Account { available, held, ..self }),
                None => Err(Overflow::Addition),
            },
            None => Err(Overflow::Subtraction),
        }
    }

    /// The account once the held funds have come down to `rest` by a
    /// chargeback: held funds never fall below zero, and the account is
    /// locked.
    pub open spec fn spec_charged_back(self, rest: Amount) -> Account {
        Account {
            held: if rest.units() < 0 {
                Amount::zero()
            } else {
                rest
            },
            locked: true,
            ..self
        }
    }

    /// The account after a chargeback of a disputed `amount`.
    pub open spec fn with_chargeback(self, amount: Amount) -> Result<Account, Overflow> {
        match self.held.difference(amount) {
            Some(rest) => Ok(self.spec_charged_back(rest)),
            None => Err(Overflow::Subtraction),
        }
    }

    /// The total the account is reported with: available and held funds
    /// together.
    pub open spec fn spec_total(&self) -> Option<Amount> {
        self.available.sum(self.held)
    }

    /// Opens the account of a client: no funds, not locked.
    #[verifier::when_used_as_spec(spec_new)]
    pub fn new(client_id: u16) -> (r: Account)
        ensures
            r == Account::spec_new(client_id),
    {
        Account { client_id, available: Amount::zero(), held: Amount::zero(), locked: false }
    }

    /// Whether the available funds cover a withdrawal of `amount`.
    #[verifier::when_used_as_spec(spec_covers)]
    pub fn covers(&self, amount: Amount) -> (r: bool)
        ensures
            r == self.spec_covers(amount),
    {
        amount.le(&self.available)
    }

    /// Adds `amount` to the available funds.
    pub fn deposit(&self, amount: Amount) -> (r: Result<Account, Overflow>)
        ensures
            r == self.with_deposit(amount),
    {
        match self.available.checked_add(amount) {
            Some(available) => Ok(
                Account {
                    client_id: self.client_id,
                    available,
                    held: self.held,
                    locked: self.locked,
                },
            ),
            None => Err(Overflow::Addition),
        }
    }

    /// Takes `amount` from the available funds. Whether the funds cover it
    /// is for the caller to decide.
    pub fn withdraw(&self, amount: Amount) -> (r: Result<Account, Overflow>)
        ensures
            r == self.with_withdrawal(amount),
    {
        match self.available.checked_sub(amount) {
            Some(available) => Ok(
                Account {
                    client_id: self.client_id,
                    available,
                    held: self.held,
                    locked: self.locked,
                },
            ),
            None => Err(Overflow::Subtraction),
        }
    }

    /// Moves `amount` from the available funds to the held funds.
    pub fn dispute(&self, amount: Amount) -> (r: Result<Account, Overflow>)
        ensures
            r == self.with_dispute(amount),
    {
        match self.available.checked_sub(amount) {
            Some(available) => match self.held.checked_add(amount) {
                Some(held) => Ok(
                    Account { client_id: self.client_id, available, held, locked: self.locked },
                ),
                None => Err(Overflow::Addition),
            },
            None => Err(Overflow::Subtraction),
        }
    }

    /// Moves `amount` from the held funds back to the available funds.
    pub fn resolve(&self, amount: Amount) -> (r: Result<Account, Overflow>)
        ensures
            r == self.with_resolve(amount),
    {
        match self.held.checked_sub(amount) {
            Some(held) => match self.available.checked_add(amount) {
                Some(available) => Ok(
                    Account { client_id: self.client_id, available, held, locked: self.locked },
                ),
                None => Err(Overflow::Addition),
            },
            None => Err(Overflow::Subtraction),
        }
    }

    /// Settles a chargeback once the held funds less the disputed amount are
    /// known to be `rest`: the held funds become `rest`, or zero where `rest`
    /// is below zero, and the account is locked.
    #[verifier::when_used_as_spec(spec_charged_back)]
    pub fn charged_back(self, rest: Amount) -> (r: Account)
        ensures
            r == self.spec_charged_back(rest),
            r.locked,
            r.held.units() >= 0,
            r.available == self.available,
            r.client_id == self.client_id,
    {
        Account {
            client_id: self.client_id,
            available: self.available,
            held: rest.floor_at_zero(),
            locked: true,
        }
    }

    /// Takes a disputed `amount` out of the held funds for good and locks
    /// the account.
    pub fn chargeback(&self, amount: Amount) -> (r: Result<Account, Overflow>)
        ensures
            r == self.with_chargeback(amount),
    {
        match self.held.checked_sub(amount) {
            Some(rest) => Ok(self.charged_back(rest)),
            None => Err(Overflow::Subtraction),
        }
    }

    /// Available and held funds together. `None` where the sum cannot be
    /// held.
    #[verifier::when_used_as_spec(spec_total)]
    pub fn total(&self) -> (r: Option<Amount>)
        ensures
            r == self.spec_total(),
    {
        self.available.checked_add(self.held)
    }
}

} // verus!
