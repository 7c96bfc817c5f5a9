//! The snapshot of all accounts that is reported at the end of a run.

use crate::models::account::Account;
use crate::models::amount::Amount;
use std::collections::HashMap;
use vstd::prelude::*;
use vstd::std_specs::hash::*;
use vstd::std_specs::iter::IteratorSpec;

verus! {

broadcast use group_hash_axioms;

/// One row of the snapshot: an account with its total.
#[derive(Clone, Copy, Debug)]
pub struct AccountOutput {
    pub client: u16,
    pub available: Amount,
    pub held: Amount,
    pub total: Amount,
    pub locked: bool,
}

impl AccountOutput {
    /// The row that reports an account, where its total can be held.
    pub open spec fn spec_of(account: Account) -> Option<AccountOutput> {
        match account.total() {
            Some(total) => Some(
                AccountOutput {
                    client: account.client_id,
                    available: account.available,
                    held: account.held,
                    total,
                    locked: account.locked,
                },
            ),
            None => None,
        }
    }

    /// The row that reports an account: its balances as they are, and their
    /// sum as the total. `None` where the total cannot be held.
    #[verifier::when_used_as_spec(spec_of)]
    pub fn of(account: Account) -> (r: Option<AccountOutput>)
        ensures
            r == AccountOutput::spec_of(account),
    {
        match account.total() {
            Some(total) => Some(
                AccountOutput {
                    client: account.client_id,
                    available: account.available,
                    held: account.held,
                    total,
                    locked: account.locked,
                },
            ),
            None => None,
        }
    }
}

/// Whether the rows report the accounts in the given order of their
/// clients: every client with an account comes once in the order, and each
/// row is the report of the account of the client at its place.
pub open spec fn reports_in_order(
    rows: Seq<AccountOutput>,
    accounts: Map<u16, Account>,
    order: Seq<u16>,
) -> bool {
    &&& order.no_duplicates()
    &&& order.to_set() == accounts.dom()
    &&& rows.len() == order.len()
    &&& forall|i: int|
        0 <= i < order.len() ==> AccountOutput::of(accounts[#[trigger] order[i]]) == Some(rows[i])
}

/// Whether the rows report the accounts: one row for each account, in some
/// order.
pub open spec fn is_snapshot(rows: Seq<AccountOutput>, accounts: Map<u16, Account>) -> bool {
    exists|order: Seq<u16>| reports_in_order(rows, accounts, order)
}

/// Whether some account has a total that cannot be held.
pub open spec fn has_unheld_total(accounts: Map<u16, Account>) -> bool {
    exists|client: u16|
        accounts.contains_key(client) && (#[trigger] accounts[client]).total() is None
}

/// A snapshot has as many rows as there are accounts, and every account has
/// a total that can be held.
pub proof fn lemma_snapshot_is_complete(rows: Seq<AccountOutput>, accounts: Map<u16, Account>)
    requires
        is_snapshot(rows, accounts),
    ensures
        rows.len() == accounts.dom().len(),
        !has_unheld_total(accounts),
{
    let order = choose|order: Seq<u16>| reports_in_order(rows, accounts, order);
    order.unique_seq_to_set();
    if has_unheld_total(accounts) {
        let client = choose|client: u16|
            accounts.contains_key(client) && (#[trigger] accounts[client]).total() is None;
        assert(order.to_set().contains(client));
        let i = choose|i: int| 0 <= i < order.len() && order[i] == client;
        assert(AccountOutput::of(accounts[order[i]]) == Some(rows[i]));
    }
}

/// Reports every account with its total, one row for each, in no order that
/// a caller can count on. `None` where the total of some account cannot be
/// held.
pub fn output_accounts(accounts: &HashMap<u16, Account>) -> (r: Option<Vec<AccountOutput>>)
    ensures
        match r {
            Some(rows) => is_snapshot(rows@, accounts@),
            None => has_unheld_total(accounts@),
        },
{
    let mut rows: Vec<AccountOutput> = Vec::new();
    let ghost entries = spec_hash_map_iter(accounts).remaining();
    let ghost order = Seq::new(entries.len(), |i: int| *entries[i].0);
    for entry in it: accounts.iter()
        invariant
            rows.len() == it.index(),
            it.seq() == entries,
            entries.no_duplicates(),
            order.len() == entries.len(),
            forall|j: int| 0 <= j < entries.len() ==> order[j] == *entries[j].0,
            forall|j: int|
                0 <= j < entries.len() ==> accounts@.contains_key(#[trigger] order[j])
                    && accounts@[order[j]] == *entries[j].1,
            forall|client: u16| #[trigger]
                accounts@.contains_key(client) ==> entries.contains((&client, &accounts@[client])),
            forall|j: int|
                0 <= j < rows.len() ==> AccountOutput::of(accounts@[#[trigger] order[j]]) == Some(
                    rows[j],
                ),
    {
        assert(order[rows.len() as int] == *entry.0);
        match AccountOutput::of(*entry.1) {
            Some(row) => rows.push(row),
            None => {
                assert(accounts@[*entry.0].total() is None);
                return None;
            },
        }
    }
    proof {
        assert forall|i: int, j: int|
            0 <= i < order.len() && 0 <= j < order.len() && i != j implies order[i] != order[j] by {
            if order[i] == order[j] {
                assert(accounts@[order[i]] == *entries[i].1);
                assert(accounts@[order[j]] == *entries[j].1);
                assert(entries[i] == entries[j]);
            }
        }
        assert forall|client: u16| accounts@.dom().contains(client) implies order.to_set().contains(
            client,
        ) by {
            assert(accounts@.contains_key(client));
            let entry = (&client, &accounts@[client]);
            assert(entries.contains(entry));
            let i = choose|i: int| 0 <= i < entries.len() && entries[i] == entry;
            assert(order[i] == client);
        }
        assert forall|client: u16| order.to_set().contains(client) implies accounts@.dom().contains(
            client,
        ) by {
            let i = choose|i: int| 0 <= i < order.len() && order[i] == client;
            assert(accounts@.contains_key(order[i]));
        }
        assert(order.to_set() =~= accounts@.dom());
        assert(reports_in_order(rows@, accounts@, order));
    }
    Some(rows)
}

} // verus!
