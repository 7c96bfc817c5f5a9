use std::str::FromStr;

use payments_engine::adapters::output::AccountOutput;
use payments_engine::engine::runner::{
    run, send_commands_to_engine, NextMove, Progress, RowDecision, PAUSE_INTERVAL,
};
use payments_engine::models::amount::{Amount, Overflow, MAX_MANTISSA};
use payments_engine::models::command::Command;
use payments_engine::models::transaction::TransactionInput;
use rust_decimal::Decimal;

/// The amount that a decimal text stands for.
fn amount(text: &str) -> Amount {
    let decimal = Decimal::from_str(text).unwrap();
    Amount::new(decimal.mantissa(), decimal.scale()).unwrap()
}

/// A row as one line of the report.
fn line(row: &AccountOutput) -> String {
    let text = |a: Amount| Decimal::from_i128_with_scale(a.mantissa(), a.scale()).to_string();
    format!(
        "{},{},{},{},{}",
        row.client,
        text(row.available),
        text(row.held),
        text(row.total),
        row.locked
    )
}

/// The report of a run, its lines in order.
fn report(commands: Vec<Command>) -> Vec<String> {
    let mut lines: Vec<String> = run(&commands).unwrap().iter().map(line).collect();
    lines.sort();
    lines
}

#[test]
fn run_reports_every_account() {
    let lines = report(vec![
        Command::Deposit { client_id: 1, tx: 1, amount: amount("1.0") },
        Command::Deposit { client_id: 2, tx: 2, amount: amount("2.0") },
        Command::Deposit { client_id: 1, tx: 3, amount: amount("2.0") },
        Command::Withdrawal { client_id: 1, tx: 4, amount: amount("1.5") },
        Command::Withdrawal { client_id: 2, tx: 5, amount: amount("3.0") },
        Command::Dispute { client_id: 2, tx: 2 },
        Command::Withdrawal { client_id: 3, tx: 6, amount: amount("1") },
    ]);
    assert_eq!(lines, vec!["1,1.5,0,1.5,false", "2,0.0,2.0,2.0,false", "3,0,0,0,false"]);
}

#[test]
fn run_applies_commands_in_order() {
    let deposit = Command::Deposit { client_id: 1, tx: 1, amount: amount("5") };
    let withdrawal = Command::Withdrawal { client_id: 1, tx: 2, amount: amount("5") };
    assert_eq!(report(vec![deposit, withdrawal]), vec!["1,0,0,0,false"]);
    assert_eq!(report(vec![withdrawal, deposit]), vec!["1,5,0,5,false"]);
}

#[test]
fn run_of_nothing_reports_nothing() {
    assert_eq!(run(&Vec::new()).unwrap().len(), 0);
}

#[test]
fn run_ends_with_the_operation_out_of_range() {
    let largest = Amount::new(MAX_MANTISSA, 0).unwrap();
    let smallest = Amount::new(-MAX_MANTISSA, 0).unwrap();
    let twice = vec![
        Command::Deposit { client_id: 1, tx: 1, amount: largest },
        Command::Deposit { client_id: 1, tx: 2, amount: largest },
        Command::Deposit { client_id: 2, tx: 3, amount: amount("1") },
    ];
    assert_eq!(run(&twice).err(), Some(Overflow::Addition));
    let below = vec![
        Command::Deposit { client_id: 1, tx: 1, amount: largest },
        Command::Withdrawal { client_id: 1, tx: 2, amount: smallest },
    ];
    assert_eq!(run(&below).err(), Some(Overflow::Subtraction));
    // Both balances can be held, their total cannot.
    let total = vec![
        Command::Deposit { client_id: 1, tx: 1, amount: largest },
        Command::Dispute { client_id: 1, tx: 1 },
        Command::Deposit { client_id: 1, tx: 2, amount: largest },
    ];
    assert_eq!(run(&total).err(), Some(Overflow::Addition));
}

#[test]
fn progress_starts_at_nothing() {
    let progress = Progress::new();
    assert_eq!(progress.forwarded, 0);
    assert_eq!(progress.skipped, 0);
    assert_eq!(PAUSE_INTERVAL, 1000);
}

#[test]
fn a_row_is_forwarded_or_skipped_with_its_reason() {
    let mut progress = Progress::new();
    let good = TransactionInput::new("deposit".to_string(), 1, 2, Some(amount("1.5")));
    match progress.row_read(&good) {
        RowDecision::Forward(Command::Deposit { client_id, tx, amount }) => {
            assert_eq!((client_id, tx), (1, 2));
            assert_eq!((amount.mantissa(), amount.scale()), (15, 1));
        }
        other => panic!("not forwarded: {:?}", other),
    }
    assert_eq!((progress.forwarded, progress.skipped), (0, 0));

    let missing = TransactionInput::new("withdrawal".to_string(), 1, 3, None);
    match progress.row_read(&missing) {
        RowDecision::Skip(reason) => assert_eq!(reason, "Missing amount in withdrawal"),
        other => panic!("not skipped: {:?}", other),
    }
    assert_eq!((progress.forwarded, progress.skipped), (0, 1));

    let unknown = TransactionInput::new("refund".to_string(), 1, 4, Some(amount("1")));
    match progress.row_read(&unknown) {
        RowDecision::Skip(reason) => assert_eq!(reason, "Unknown transaction type: refund"),
        other => panic!("not skipped: {:?}", other),
    }
    assert_eq!((progress.forwarded, progress.skipped), (0, 2));

    progress.row_unreadable();
    assert_eq!((progress.forwarded, progress.skipped), (0, 3));
}

#[test]
fn the_feeder_pauses_after_every_thousandth_command() {
    let mut progress = Progress::new();
    for count in 1..=3000usize {
        let next = progress.command_offered(true);
        assert_eq!(progress.forwarded, count);
        if count % 1000 == 0 {
            assert_eq!(next, NextMove::Pause);
        } else {
            assert_eq!(next, NextMove::Continue);
        }
    }
    assert_eq!(progress.skipped, 0);
}

#[test]
fn the_feeder_stops_when_a_command_is_not_taken() {
    let mut progress = Progress::new();
    assert_eq!(progress.command_offered(true), NextMove::Continue);
    assert_eq!(progress.command_offered(false), NextMove::Stop);
    assert_eq!((progress.forwarded, progress.skipped), (1, 0));
    let mut at_interval = Progress { forwarded: 999, skipped: 4 };
    assert_eq!(at_interval.command_offered(false), NextMove::Stop);
    assert_eq!((at_interval.forwarded, at_interval.skipped), (999, 4));
    assert_eq!(at_interval.command_offered(true), NextMove::Pause);
    assert_eq!((at_interval.forwarded, at_interval.skipped), (1000, 4));
}

/// A row that was read.
fn row(kind: &str, client: u16, tx: u32, text: Option<&str>) -> Option<TransactionInput> {
    Some(TransactionInput::new(kind.to_string(), client, tx, text.map(amount)))
}

#[test]
fn rows_become_commands_in_order() {
    let rows = vec![
        row("deposit", 1, 1, Some("1.0")),
        row("deposit", 2, 2, Some("2.0")),
        None,
        row("deposit", 1, 3, Some("2.0")),
        row("withdrawal", 1, 4, None),
        row("transfer", 1, 9, Some("1")),
        row("withdrawal", 1, 4, Some("1.5")),
        row("withdrawal", 2, 5, Some("3.0")),
        row("dispute", 2, 2, None),
        None,
    ];
    let (commands, progress) = send_commands_to_engine(&rows);
    assert_eq!((progress.forwarded, progress.skipped), (6, 4));
    assert_eq!(commands.len(), 6);
    let shape: Vec<String> = commands
        .iter()
        .map(|command| match command {
            Command::Deposit { client_id, tx, amount } => {
                format!("deposit {} {} {}/{}", client_id, tx, amount.mantissa(), amount.scale())
            }
            Command::Withdrawal { client_id, tx, amount } => {
                format!("withdrawal {} {} {}/{}", client_id, tx, amount.mantissa(), amount.scale())
            }
            Command::Dispute { client_id, tx } => format!("dispute {} {}", client_id, tx),
            Command::Resolve { client_id, tx } => format!("resolve {} {}", client_id, tx),
            Command::Chargeback { client_id, tx } => format!("chargeback {} {}", client_id, tx),
        })
        .collect();
    assert_eq!(
        shape,
        vec![
            "deposit 1 1 10/1",
            "deposit 2 2 20/1",
            "deposit 1 3 20/1",
            "withdrawal 1 4 15/1",
            "withdrawal 2 5 30/1",
            "dispute 2 2",
        ]
    );
    assert_eq!(report(commands), vec!["1,1.5,0,1.5,false", "2,0.0,2.0,2.0,false"]);
}

#[test]
fn no_rows_give_no_commands() {
    let (commands, progress) = send_commands_to_engine(&Vec::new());
    assert_eq!(commands.len(), 0);
    assert_eq!((progress.forwarded, progress.skipped), (0, 0));
    let (commands, progress) = send_commands_to_engine(&vec![None, None]);
    assert_eq!(commands.len(), 0);
    assert_eq!((progress.forwarded, progress.skipped), (0, 2));
}
