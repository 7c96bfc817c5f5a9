//! A run from input rows to the snapshot of accounts: what to do with each
//! row on its way to the ledger, and the ledger's work on the commands.

use crate::adapters::output::{has_unheld_total, is_snapshot, output_accounts, AccountOutput};
use crate::engine::laws::lemma_run_joined;
use crate::engine::ledger::Ledger;
use crate::engine::state::State;
use crate::models::amount::Overflow;
use crate::models::command::Command;
use crate::models::transaction::TransactionInput;
use vstd::prelude::*;

verus! {

/// After this many commands in a row the feeder lets other work run.
pub const PAUSE_INTERVAL: usize = 1000;

/// The counts kept while rows are fed to the ledger.
#[derive(Clone, Copy, Debug)]
pub struct Progress {
    /// Commands handed to the ledger.
    pub forwarded: usize,
    /// Rows left out: unreadable ones, and readable ones that stand for no
    /// command.
    pub skipped: usize,
}

/// What becomes of a row that was read.
#[derive(Debug)]
pub enum RowDecision {
    /// The row stands for this command: hand it to the ledger.
    Forward(Command),
    /// The row stands for no command: report the reason and go on.
    Skip(String),
}

/// How to go on after a command was offered to the ledger.
#[derive(Clone, Copy, Debug, PartialEq, Eq, Structural)]
pub enum NextMove {
    /// Read the next row.
    Continue,
    /// Let other work run, then read the next row.
    Pause,
    /// The ledger takes no more commands: stop reading.
    Stop,
}

impl Progress {
    /// Nothing forwarded and nothing skipped.
    pub fn new() -> (r: Progress)
        ensures
            r.forwarded == 0,
            r.skipped == 0,
    {
        Progress { forwarded: 0, skipped: 0 }
    }

    /// Counts a row that could not be read at all.
    pub fn row_unreadable(&mut self)
        requires
            old(self).skipped < usize::MAX,
        ensures
            final(self).skipped == old(self).skipped + 1,
            final(self).forwarded == old(self).forwarded,
    {
        self.skipped = self.skipped + 1;
    }

    /// Decides on a row that was read: forward the command it stands for,
    /// or skip it, with the reason, and count it as skipped.
    pub fn row_read(&mut self, row: &TransactionInput) -> (r: RowDecision)
        requires
            row.decoded() is Err ==> old(self).skipped < usize::MAX,
        ensures
            final(self).forwarded == old(self).forwarded,
            match row.decoded() {
                Ok(command) => r == RowDecision::Forward(command) && final(self).skipped == old(
                    self,
                ).skipped,
                Err(reason) => {
                    &&& r matches RowDecision::Skip(text)
                    &&& text@ == reason
                    &&& final(self).skipped == old(self).skipped + 1
                },
            },
    {
        match row.to_command() {
            Ok(command) => RowDecision::Forward(command),
            Err(reason) => {
                self.skipped = self.skipped + 1;
                RowDecision::Skip(reason)
            },
        }
    }

    /// Decides how to go on after a command was offered to the ledger. A
    /// command that was taken is counted; after every thousandth the feeder
    /// pauses. A command that was not taken ends the feeding.
    pub fn command_offered(&mut self, taken: bool) -> (r: NextMove)
        requires
            taken ==> old(self).forwarded < usize::MAX,
        ensures
            final(self).skipped == old(self).skipped,
            final(self).forwarded == (if taken {
                old(self).forwarded + 1
            } else {
                old(self).forwarded as int
            }),
            r == (if !taken {
                NextMove::Stop
            } else if (old(self).forwarded + 1) % (PAUSE_INTERVAL as int) == 0 {
                NextMove::Pause
            } else {
                NextMove::Continue
            }),
    {
        if !taken {
            return NextMove::Stop;
        }
        self.forwarded = self.forwarded + 1;
        if self.forwarded % PAUSE_INTERVAL == 0 {
            NextMove::Pause
        } else {
            NextMove::Continue
        }
    }
}

/// The commands that the rows stand for, in the order of the rows. A row
/// that could not be read is `None`; it and every row that decodes to no
/// command are left out.
pub open spec fn commands_of(rows: Seq<Option<TransactionInput>>) -> Seq<Command>
    decreases rows.len(),
{
    if rows.len() == 0 {
        Seq::empty()
    } else {
        let before = commands_of(rows.drop_last());
        match rows.last() {
            Some(row) => match row.decoded() {
                Ok(command) => before.push(command),
                Err(_) => before,
            },
            None => before,
        }
    }
}

/// Turns the rows of an input into the commands for the ledger, in order,
/// and counts the rows that were left out. A row that could not be read is
/// `None`.
pub fn send_commands_to_engine(rows: &Vec<Option<TransactionInput>>) -> (r: (
    Vec<Command>,
    Progress,
))
    ensures
        r.0@ == commands_of(rows@),
        r.1.forwarded == r.0@.len(),
        r.1.forwarded + r.1.skipped == rows@.len(),
{
    let mut commands: Vec<Command> = Vec::new();
    let mut progress = Progress::new();
    let mut seen: usize = 0;
    while seen < rows.len()
        invariant
            seen <= rows.len(),
            commands@ == commands_of(rows@.take(seen as int)),
            progress.forwarded == commands@.len(),
            progress.forwarded + progress.skipped == seen,
        decreases rows.len() - seen,
    {
        assert(rows@.take(seen + 1).drop_last() =~= rows@.take(seen as int));
        match &rows[seen] {
            Some(row) => match progress.row_read(row) {
                RowDecision::Forward(command) => {
                    let _ = progress.command_offered(true);
                    commands.push(command);
                },
                RowDecision::Skip(_) => {},
            },
            None => progress.row_unreadable(),
        }
        seen = seen + 1;
    }
    assert(rows@.take(seen as int) =~= rows@);
    (commands, progress)
}

/// Applies the commands in order to an empty ledger and reports every
/// account. Where a balance or a total cannot be held, the run ends with the
/// operation that went out of range.
pub fn run(commands: &Vec<Command>) -> (r: Result<Vec<AccountOutput>, Overflow>)
    ensures
        Ledger::empty().run(commands@) matches Err(overflow) ==> r matches Err(reported)
            && reported == overflow,
        Ledger::empty().run(commands@) matches Ok(ledger) ==> match r {
            Ok(rows) => is_snapshot(rows@, ledger.accounts),
            Err(overflow) => overflow == Overflow::Addition && has_unheld_total(ledger.accounts),
        },
{
    let mut state = State::new();
    let mut done: usize = 0;
    while done < commands.len()
        invariant
            done <= commands.len(),
            Ledger::empty().run(commands@.take(done as int)) == Ok::<Ledger, Overflow>(state@),
        decreases commands.len() - done,
    {
        let ghost before = commands@.take(done as int);
        let ghost through = commands@.take(done + 1);
        assert(through.drop_last() =~= before);
        match state.try_process_single_command(commands[done]) {
            Ok(()) => {},
            Err(overflow) => {
                proof {
                    assert(through + commands@.skip(done + 1) =~= commands@);
                    lemma_run_joined(Ledger::empty(), through, commands@.skip(done + 1));
                }
                return Err(overflow);
            },
        }
        done = done + 1;
    }
    assert(commands@.take(done as int) =~= commands@);
    let accounts = state.accounts();
    match output_accounts(accounts) {
        Some(rows) => Ok(rows),
        None => Err(Overflow::Addition),
    }
}

} // verus!
