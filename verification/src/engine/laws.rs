//! What holds of every ledger and every command.

use crate::engine::ledger::Ledger;
use crate::models::amount::{Amount, Overflow};
use crate::models::command::Command;
use crate::models::transaction::TransactionStatus;
use vstd::prelude::*;

verus! {

/// Whether a record may pass from one status to another in one step: a
/// normal record may come under dispute, a disputed one may be resolved or
/// charged back, and any record may stay as it is. Nothing follows a
/// chargeback.
pub open spec fn may_become(from: TransactionStatus, to: TransactionStatus) -> bool {
    match (from, to) {
        (TransactionStatus::Normal, TransactionStatus::ChargedBack) => false,
        (TransactionStatus::ChargedBack, TransactionStatus::Normal) => false,
        (TransactionStatus::ChargedBack, TransactionStatus::Disputed) => false,
        _ => true,
    }
}

/// Whether `later` still has every account and every record of `earlier`,
/// each record with its owner, amount and kind untouched, and no record
/// that was charged back in any other status.
pub open spec fn keeps_history(earlier: Ledger, later: Ledger) -> bool {
    &&& forall|client: u16| #[trigger]
        earlier.accounts.contains_key(client) ==> later.accounts.contains_key(client)
    &&& forall|tx: u32| #[trigger]
        earlier.transactions.contains_key(tx) ==> {
            let before = earlier.transactions[tx];
            let after = later.transactions[tx];
            &&& later.transactions.contains_key(tx)
            &&& after.client_id == before.client_id
            &&& after.amount == before.amount
            &&& after.is_deposit == before.is_deposit
            &&& before.status == TransactionStatus::ChargedBack ==> after.status
                == TransactionStatus::ChargedBack
        }
}

/// One step keeps a well-formed ledger well formed.
pub proof fn lemma_step_keeps_wf(ledger: Ledger, command: Command, next: Ledger)
    requires
        ledger.wf(),
        ledger.step(command) == Ok::<Ledger, Overflow>(next),
    ensures
        next.wf(),
{
}

/// A run of commands keeps a well-formed ledger well formed. The empty
/// ledger is well formed, so every ledger that commands have built is.
pub proof fn lemma_run_keeps_wf(ledger: Ledger, commands: Seq<Command>, last: Ledger)
    requires
        ledger.wf(),
        ledger.run(commands) == Ok::<Ledger, Overflow>(last),
    ensures
        last.wf(),
        Ledger::empty().wf(),
    decreases commands.len(),
{
    if commands.len() > 0 {
        let before = ledger.run(commands.drop_last())->Ok_0;
        lemma_run_keeps_wf(ledger, commands.drop_last(), before);
        lemma_step_keeps_wf(before, commands.last(), last);
    }
}

/// One step deletes no account and no record, leaves each record its owner,
/// amount and kind, and moves its status only along the dispute lifecycle.
pub proof fn lemma_step_keeps_history(ledger: Ledger, command: Command, next: Ledger)
    requires
        ledger.step(command) == Ok::<Ledger, Overflow>(next),
    ensures
        keeps_history(ledger, next),
        forall|tx: u32| #[trigger]
            ledger.transactions.contains_key(tx) ==> may_become(
                ledger.transactions[tx].status,
                next.transactions[tx].status,
            ),
{
}

/// A run of commands deletes no account and no record, leaves each record
/// its owner, amount and kind, and never reopens a chargeback.
pub proof fn lemma_run_keeps_history(ledger: Ledger, commands: Seq<Command>, last: Ledger)
    requires
        ledger.run(commands) == Ok::<Ledger, Overflow>(last),
    ensures
        keeps_history(ledger, last),
    decreases commands.len(),
{
    if commands.len() > 0 {
        let before = ledger.run(commands.drop_last())->Ok_0;
        lemma_run_keeps_history(ledger, commands.drop_last(), before);
        lemma_step_keeps_history(before, commands.last(), last);
    }
}

/// A dispute, a resolve or a chargeback opens no account and records no
/// transaction: it only changes what is there.
pub proof fn lemma_dispute_lifecycle_creates_nothing(
    ledger: Ledger,
    command: Command,
    next: Ledger,
)
    requires
        !command.is_movement(),
        ledger.step(command) == Ok::<Ledger, Overflow>(next),
    ensures
        next.accounts.dom() == ledger.accounts.dom(),
        next.transactions.dom() == ledger.transactions.dom(),
{
}

/// Whether every lock in the ledger comes from a chargeback: a locked
/// account owns a transaction that was charged back.
pub open spec fn locks_come_from_chargebacks(ledger: Ledger) -> bool {
    forall|client: u16| #[trigger]
        ledger.is_locked(client) ==> exists|tx: u32| #[trigger]
            ledger.has_record(client, tx, TransactionStatus::ChargedBack)
}

/// Only a chargeback locks an account: where every lock came from a
/// chargeback before a step, it is so after it.
pub proof fn lemma_step_locks_by_chargeback_only(ledger: Ledger, command: Command, next: Ledger)
    requires
        locks_come_from_chargebacks(ledger),
        ledger.step(command) == Ok::<Ledger, Overflow>(next),
    ensures
        locks_come_from_chargebacks(next),
{
    lemma_step_keeps_history(ledger, command, next);
    assert forall|client: u16| #[trigger] next.is_locked(client) implies exists|tx: u32| #[trigger]
        next.has_record(client, tx, TransactionStatus::ChargedBack) by {
        if ledger.is_locked(client) {
            let tx = choose|tx: u32| #[trigger]
                ledger.has_record(client, tx, TransactionStatus::ChargedBack);
            assert(ledger.transactions.contains_key(tx));
            assert(next.has_record(client, tx, TransactionStatus::ChargedBack));
        } else {
            assert(command is Chargeback);
            assert(next.has_record(client, command.transaction(), TransactionStatus::ChargedBack));
        }
    }
}

/// Where every lock came from a chargeback before a run of commands, it is
/// so after it. The empty ledger has no lock, so in every ledger that
/// commands have built a locked account owns a transaction that was charged
/// back.
pub proof fn lemma_run_locks_by_chargeback_only(
    ledger: Ledger,
    commands: Seq<Command>,
    last: Ledger,
)
    requires
        locks_come_from_chargebacks(ledger),
        ledger.run(commands) == Ok::<Ledger, Overflow>(last),
    ensures
        locks_come_from_chargebacks(last),
        locks_come_from_chargebacks(Ledger::empty()),
    decreases commands.len(),
{
    if commands.len() > 0 {
        let before = ledger.run(commands.drop_last())->Ok_0;
        lemma_run_locks_by_chargeback_only(ledger, commands.drop_last(), before);
        lemma_step_locks_by_chargeback_only(before, commands.last(), last);
    }
}

/// Running two sequences of commands one after the other is running them
/// joined.
pub proof fn lemma_run_joined(ledger: Ledger, first: Seq<Command>, second: Seq<Command>)
    ensures
        ledger.run(first + second) == match ledger.run(first) {
            Ok(middle) => middle.run(second),
            Err(overflow) => Err(overflow),
        },
    decreases second.len(),
{
    if second.len() > 0 {
        assert((first + second).drop_last() =~= first + second.drop_last());
        lemma_run_joined(ledger, first, second.drop_last());
    }
}

/// A deposit or withdrawal under an id that the ledger has recorded changes
/// nothing, whatever its client and its amount.
pub proof fn lemma_recorded_id_is_refused(ledger: Ledger, command: Command)
    requires
        command.is_movement(),
        ledger.transactions.contains_key(command.transaction()),
    ensures
        ledger.step(command) == Ok::<Ledger, Overflow>(ledger),
{
}

/// A deposit or withdrawal that is admitted and has an outcome is recorded
/// under its id, but for a withdrawal that the funds do not cover.
pub proof fn lemma_applied_movement_is_recorded(ledger: Ledger, command: Command, next: Ledger)
    requires
        command.is_movement(),
        ledger.admits(command.client(), command.transaction()),
        ledger.step(command) == Ok::<Ledger, Overflow>(next),
        command matches Command::Withdrawal { client_id, amount, .. } ==> ledger.account_or_new(
            client_id,
        ).covers(amount),
    ensures
        next.transactions.contains_key(command.transaction()),
{
}

/// Of two deposits or withdrawals under one id only the first counts: once
/// the first has left the id recorded, the second changes nothing, whatever
/// its amount and whatever commands came in between.
pub proof fn lemma_duplicate_id_is_ignored(
    ledger: Ledger,
    first: Command,
    between: Seq<Command>,
    second: Command,
)
    requires
        first.is_movement(),
        second.is_movement(),
        first.transaction() == second.transaction(),
        ledger.step(first) matches Ok(next) && next.transactions.contains_key(first.transaction()),
    ensures
        ledger.run(seq![first] + between + seq![second]) == ledger.run(seq![first] + between),
{
    let next = ledger.step(first)->Ok_0;
    let head = seq![first];
    assert(ledger.run(head.drop_last()) == Ok::<Ledger, Overflow>(ledger));
    lemma_run_joined(ledger, head, between);
    let prefix = head + between;
    assert((prefix + seq![second]).drop_last() =~= prefix);
    match ledger.run(prefix) {
        Ok(later) => {
            lemma_run_keeps_history(next, between, later);
            lemma_recorded_id_is_refused(later, second);
        },
        Err(_) => {},
    }
}

/// Depositing an amount, disputing the deposit and resolving the dispute
/// leaves the client's available and held funds at what they were before
/// the dispute, and the deposit on record as it was. This holds where the
/// dispute and the resolve were computed without rounding.
pub proof fn lemma_resolve_restores_balances(
    ledger: Ledger,
    client: u16,
    tx: u32,
    amount: Amount,
    deposited: Ledger,
    disputed: Ledger,
    resolved: Ledger,
)
    requires
        ledger.admits(client, tx),
        ledger.step(Command::Deposit { client_id: client, tx, amount }) == Ok::<Ledger, Overflow>(
            deposited,
        ),
        deposited.step(Command::Dispute { client_id: client, tx }) == Ok::<Ledger, Overflow>(
            disputed,
        ),
        disputed.step(Command::Resolve { client_id: client, tx }) == Ok::<Ledger, Overflow>(
            resolved,
        ),
    ensures
        disputed.transactions[tx].status == TransactionStatus::Disputed,
        resolved.transactions == deposited.transactions,
        resolved.accounts.dom() == deposited.accounts.dom(),
        resolved.accounts[client].locked == deposited.accounts[client].locked,
        ({
            let before = deposited.accounts[client];
            let during = disputed.accounts[client];
            &&& before.available.difference_is_exact(amount)
            &&& before.held.sum_is_exact(amount)
            &&& during.held.difference_is_exact(amount)
            &&& during.available.sum_is_exact(amount)
        }) ==> {
            &&& resolved.accounts[client].available.units()
                == deposited.accounts[client].available.units()
            &&& resolved.accounts[client].held.units() == deposited.accounts[client].held.units()
        },
{
}

/// A locked account takes no deposit and no withdrawal: the command changes
/// nothing in the ledger.
pub proof fn lemma_locked_account_refuses_movements(ledger: Ledger, command: Command)
    requires
        command.is_movement(),
        ledger.is_locked(command.client()),
    ensures
        ledger.step(command) == Ok::<Ledger, Overflow>(ledger),
{
}

/// No command changes a locked account.
pub proof fn lemma_step_keeps_locked_account(
    ledger: Ledger,
    client: u16,
    command: Command,
    next: Ledger,
)
    requires
        ledger.is_locked(client),
        ledger.step(command) == Ok::<Ledger, Overflow>(next),
    ensures
        next.is_locked(client),
        next.accounts[client] == ledger.accounts[client],
{
}

/// Once an account is locked, no run of commands changes it: it stays
/// locked, with the same available and held funds.
pub proof fn lemma_lock_is_final(
    ledger: Ledger,
    client: u16,
    commands: Seq<Command>,
    last: Ledger,
)
    requires
        ledger.is_locked(client),
        ledger.run(commands) == Ok::<Ledger, Overflow>(last),
    ensures
        last.is_locked(client),
        last.accounts[client] == ledger.accounts[client],
    decreases commands.len(),
{
    if commands.len() > 0 {
        let before = ledger.run(commands.drop_last())->Ok_0;
        lemma_lock_is_final(ledger, client, commands.drop_last(), before);
        lemma_step_keeps_locked_account(before, client, commands.last(), last);
    }
}

/// An admitted withdrawal is applied if and only if the available funds
/// cover it at that moment. Applied, it is recorded and the funds go down by
/// the amount. Otherwise it leaves no record, so its id can be used again,
/// and the balances stay as they were.
pub proof fn lemma_withdrawal_guard(
    ledger: Ledger,
    client: u16,
    tx: u32,
    amount: Amount,
    next: Ledger,
)
    requires
        ledger.admits(client, tx),
        ledger.withdrawal(client, tx, amount) == Ok::<Ledger, Overflow>(next),
    ensures
        next.transactions.contains_key(tx) <==> ledger.account_or_new(client).available.units()
            >= amount.units(),
        next.transactions.contains_key(tx) ==> {
            &&& next.transactions[tx].client_id == client
            &&& next.transactions[tx].amount == amount
            &&& !next.transactions[tx].is_deposit
            &&& next.transactions[tx].status == TransactionStatus::Normal
            &&& Some(next.accounts[client].available) == ledger.account_or_new(
                client,
            ).available.difference(amount)
            &&& next.accounts[client].held == ledger.account_or_new(client).held
        },
        !next.transactions.contains_key(tx) ==> {
            &&& next.transactions == ledger.transactions
            &&& next.accounts[client] == ledger.account_or_new(client)
            &&& next.admits(client, tx)
        },
{
}

/// A chargeback that takes effect leaves the held funds at zero or above,
/// whatever the amount on record, locks the account and leaves the
/// available funds alone.
pub proof fn lemma_chargeback_keeps_held_non_negative(
    ledger: Ledger,
    client: u16,
    tx: u32,
    next: Ledger,
)
    requires
        ledger.can_chargeback(client, tx),
        ledger.chargeback(client, tx) == Ok::<Ledger, Overflow>(next),
    ensures
        next.accounts[client].held.units() >= 0,
        next.accounts[client].locked,
        next.accounts[client].available == ledger.accounts[client].available,
        next.transactions[tx].status == TransactionStatus::ChargedBack,
{
    Amount::lemma_zero_units();
}

/// A chargeback never takes held funds below zero: where they were at zero
/// or above before the command, they are so after it, whether or not the
/// chargeback took effect.
pub proof fn lemma_chargeback_never_drives_held_negative(
    ledger: Ledger,
    client: u16,
    tx: u32,
    other: u16,
    next: Ledger,
)
    requires
        ledger.chargeback(client, tx) == Ok::<Ledger, Overflow>(next),
        ledger.accounts.contains_key(other),
        ledger.accounts[other].held.units() >= 0,
    ensures
        next.accounts.contains_key(other),
        next.accounts[other].held.units() >= 0,
{
    Amount::lemma_zero_units();
}

} // verus!
