use std::collections::HashMap;
use std::str::{self, FromStr};

use payments_engine::adapters::output::{output_accounts, AccountOutput};
use payments_engine::models::account::Account;
use payments_engine::models::amount::Amount;
use rust_decimal::Decimal;

/// The amount that a decimal text stands for.
fn amount(text: &str) -> Amount {
    let decimal = Decimal::from_str(text).unwrap();
    Amount::new(decimal.mantissa(), decimal.scale()).unwrap()
}

/// An amount as decimal text.
fn text(amount: Amount) -> String {
    Decimal::from_i128_with_scale(amount.mantissa(), amount.scale()).to_string()
}

/// The rows as the report writes them: a header, then one line for each row.
fn render(rows: &[AccountOutput]) -> Vec<u8> {
    let mut output = Vec::new();
    {
        let mut builder = csv::WriterBuilder::new()
            .has_headers(false)
            .from_writer(&mut output);
        builder
            .write_record(["client", "available", "held", "total", "locked"])
            .unwrap();
        for row in rows {
            builder
                .write_record([
                    row.client.to_string(),
                    text(row.available),
                    text(row.held),
                    text(row.total),
                    row.locked.to_string(),
                ])
                .unwrap();
        }
        builder.flush().unwrap();
    }
    output
}

#[test]
fn test_output_accounts_csv() {
    let mut accounts = HashMap::new();

    accounts.insert(
        1,
        Account {
            client_id: 1,
            available: amount("10.5"),
            held: amount("2.5"),
            locked: false,
        },
    );

    accounts.insert(
        2,
        Account {
            client_id: 2,
            available: amount("3.0"),
            held: Amount::zero(),
            locked: true,
        },
    );

    let rows = output_accounts(&accounts).unwrap();
    let output = render(&rows);

    let csv_str = str::from_utf8(&output).unwrap();

    println!("CSV Output:\n{}", csv_str);

    // Assert it contains expected rows
    assert!(csv_str.contains("client,available,held,total,locked"));
    assert!(csv_str.contains("1,10.5,2.5,13.0,false"));
    assert!(csv_str.contains("2,3.0,0,3.0,true"));
}

#[test]
fn one_row_for_each_account() {
    let mut accounts = HashMap::new();
    for client in 0..50u16 {
        let mut account = Account::new(client);
        account.available = Amount::new(client as i128, 0).unwrap();
        account.held = Amount::new(1, 1).unwrap();
        accounts.insert(client, account);
    }
    let rows = output_accounts(&accounts).unwrap();
    assert_eq!(rows.len(), 50);
    for client in 0..50u16 {
        let found: Vec<&AccountOutput> = rows.iter().filter(|row| row.client == client).collect();
        assert_eq!(found.len(), 1);
        assert_eq!(text(found[0].available), client.to_string());
        assert_eq!(text(found[0].held), "0.1");
        assert_eq!(text(found[0].total), format!("{}.1", client));
        assert!(!found[0].locked);
    }
}

#[test]
fn no_accounts_give_no_rows() {
    let accounts: HashMap<u16, Account> = HashMap::new();
    assert_eq!(output_accounts(&accounts).unwrap().len(), 0);
}

#[test]
fn a_total_out_of_range_gives_no_report() {
    let largest = Amount::new(79_228_162_514_264_337_593_543_950_335, 0).unwrap();
    let mut accounts = HashMap::new();
    accounts.insert(1, Account::new(1));
    accounts.insert(
        2,
        Account {
            client_id: 2,
            available: largest,
            held: largest,
            locked: false,
        },
    );
    assert!(output_accounts(&accounts).is_none());
    let account = accounts.get(&2).unwrap();
    assert!(account.total().is_none());
    assert_eq!(text(accounts.get(&1).unwrap().total().unwrap()), "0");
}
