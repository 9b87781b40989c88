use ledger::{Amount, Bank, Transaction};

fn amt(text: &str) -> Amount {
    Amount::parse(text).unwrap()
}

/// Creates a new bank and applies the records of `rows` to it, skipping the
/// rows that do not parse.
fn process(rows: &[(&str, u16, u32, Option<&str>)]) -> Bank {
    let records: Vec<Transaction> = rows
        .iter()
        .filter_map(|(ty, client, tx, amount)| {
            Transaction::from_fields(ty.to_string(), *client, *tx, *amount).ok()
        })
        .collect();
    let mut bank = Bank::new();
    bank.process_transactions(&records);
    bank
}

#[test]
fn processing() {
    process(&[
        ("deposit", 1, 1, Some("1.0")),
        ("withdrawal", 1, 2, Some("0.5")),
        ("dispute", 1, 1, None),
        ("resolve", 1, 1, None),
        ("dispute", 1, 2, None),
        ("chargeback", 1, 2, None),
        ("transfer", 2, 3, Some("1.0")),
    ]);
}

#[test]
fn csv_chargeback() {
    let bank = process(&[("deposit", 1, 1, Some("1.0")), ("chargeback", 1, 1, None)]);

    let account = bank.get_account(1).unwrap();
    let tx = bank.get_logged_transaction(1).unwrap();

    assert_ne!(account.available, amt("0.0"));
    assert_eq!(account.held, amt("0.0"));
    assert!(!account.locked);
    assert!(!tx.disputed);
}

#[test]
fn csv_chargeback_dispute() {
    let bank = process(&[
        ("deposit", 1, 1, Some("1.0")),
        ("dispute", 1, 1, None),
        ("chargeback", 1, 1, None),
    ]);

    let account = bank.get_account(1).unwrap();
    let tx = bank.get_logged_transaction(1).unwrap();

    assert_eq!(account.available, amt("0.0"));
    assert_eq!(account.held, amt("0.0"));
    assert!(account.locked);
    assert!(tx.disputed);
}

#[test]
fn csv_chargeback_no_tx() {
    let bank = process(&[
        ("deposit", 1, 1, Some("1.0")),
        ("dispute", 1, 1, None),
        ("chargeback", 1, 2, None),
    ]);

    let account = bank.get_account(1).unwrap();
    let tx = bank.get_logged_transaction(1).unwrap();

    assert_eq!(account.available, amt("0.0"));
    assert_eq!(account.held, amt("1.0"));
    assert!(!account.locked);
    assert!(tx.disputed);
}

#[test]
fn csv_decimals() {
    let bank = process(&[("deposit", 1, 1, Some("0.55555")), ("deposit", 1, 2, Some("0.00001"))]);

    let account = bank.get_account(1).unwrap();
    let tx_1 = bank.get_logged_transaction(1).unwrap();
    let tx_2 = bank.get_logged_transaction(2).unwrap();

    assert_eq!(account.available, amt("0.5555"));
    assert_eq!(tx_1.amount, amt("0.5555"));
    assert_eq!(tx_2.amount, amt("0.0"));
}

#[test]
fn csv_deposit() {
    let bank = process(&[("deposit", 1, 1, Some("1.0")), ("deposit", 1, 2, Some("2.2345"))]);

    let account = bank.get_account(1).unwrap();

    assert_eq!(account.available, amt("3.2345"));
}

#[test]
fn csv_dispute() {
    let bank = process(&[("deposit", 1, 1, Some("1.0")), ("dispute", 1, 1, None)]);

    let account = bank.get_account(1).unwrap();
    let tx = bank.get_logged_transaction(1).unwrap();

    assert_eq!(account.available, amt("0.0"));
    assert_eq!(account.held, amt("1.0"));
    assert!(tx.disputed);
}

#[test]
fn csv_dispute_no_tx() {
    let bank = process(&[("deposit", 1, 1, Some("1.0")), ("dispute", 1, 2, None)]);

    let account = bank.get_account(1).unwrap();
    let tx = bank.get_logged_transaction(1).unwrap();

    assert_eq!(account.available, amt("1.0"));
    assert_eq!(account.held, amt("0.0"));
    assert!(!tx.disputed);
}

#[test]
fn csv_duplicate_tx() {
    let bank = process(&[
        ("deposit", 1, 1, Some("2.0")),
        ("deposit", 1, 1, Some("3.0")),
        ("withdrawal", 1, 2, Some("0.5")),
        ("deposit", 1, 2, Some("4.0")),
    ]);

    let account = bank.get_account(1).unwrap();
    let tx_1 = bank.get_logged_transaction(1).unwrap();
    let tx_2 = bank.get_logged_transaction(2).unwrap();

    assert_eq!(account.available, amt("1.5"));
    assert_eq!(tx_1.amount, amt("2.0"));
    assert_eq!(tx_2.amount, amt("0.5"));
}

#[test]
fn csv_failed_parse() {
    let bank = process(&[("deposit", 1, 1, Some("one")), ("withdrawal", 1, 2, Some("1.2.3"))]);

    assert_eq!(bank.num_accounts(), 0);
    assert_eq!(bank.num_logs(), 0);
}

#[test]
fn bad_tx() {
    let bank = process(&[("transfer", 1, 1, Some("1.0")), ("deposits", 1, 2, Some("1.0"))]);

    assert_eq!(bank.num_accounts(), 0);
    assert_eq!(bank.num_logs(), 0);
}

#[test]
fn capitalization() {
    let bank = process(&[
        ("deposit", 1, 1, Some("1.0")),
        ("DePosit", 1, 2, Some("1.0")),
        ("WITHDRAWAL", 1, 3, Some("0.5")),
    ]);

    assert_eq!(bank.num_logs(), 3);
}

#[test]
fn csv_misordered_client() {
    let bank = process(&[("deposit", 2, 1, Some("2.0")), ("deposit", 1, 2, Some("3.0"))]);

    let account_1 = bank.get_account(1).unwrap();
    let account_2 = bank.get_account(2).unwrap();

    assert_eq!(account_1.available, amt("3.0"));
    assert_eq!(account_2.available, amt("2.0"));
}

#[test]
fn csv_misordered_tx() {
    let bank = process(&[("deposit", 1, 3, Some("2.0")), ("deposit", 2, 1, Some("3.0"))]);

    let account_1 = bank.get_account(1).unwrap();
    let account_2 = bank.get_account(2).unwrap();

    assert_eq!(account_1.available, amt("2.0"));
    assert_eq!(account_2.available, amt("3.0"));
}

#[test]
fn csv_resolve() {
    let bank = process(&[
        ("deposit", 1, 1, Some("2.0")),
        ("dispute", 1, 1, None),
        ("resolve", 1, 1, None),
    ]);

    let account = bank.get_account(1).unwrap();
    let tx = bank.get_logged_transaction(1).unwrap();

    assert_eq!(account.available, amt("2.0"));
    assert_eq!(account.held, amt("0.0"));
    assert!(!tx.disputed);
}

#[test]
fn csv_resolve_no_tx() {
    let bank = process(&[
        ("deposit", 1, 1, Some("2.0")),
        ("dispute", 1, 1, None),
        ("resolve", 1, 2, None),
    ]);

    let account = bank.get_account(1).unwrap();
    let tx = bank.get_logged_transaction(1).unwrap();

    assert_eq!(account.available, amt("0.0"));
    assert_eq!(account.held, amt("2.0"));
    assert!(tx.disputed);
}

#[test]
fn csv_resolved_dispute() {
    let bank = process(&[
        ("deposit", 1, 1, Some("2.0")),
        ("dispute", 1, 1, None),
        ("resolve", 1, 1, None),
        ("resolve", 1, 1, None),
    ]);

    let account = bank.get_account(1).unwrap();
    let tx = bank.get_logged_transaction(1).unwrap();

    assert_eq!(account.available, amt("2.0"));
    assert_eq!(account.held, amt("0.0"));
    assert!(!tx.disputed);
}

#[test]
fn csv_sample() {
    let bank = process(&[
        ("deposit", 1, 1, Some("1.0")),
        ("deposit", 2, 2, Some("2.0")),
        ("deposit", 1, 3, Some("2.0")),
        ("withdrawal", 1, 4, Some("1.5")),
        ("withdrawal", 2, 5, Some("3.0")),
    ]);

    let account_1 = bank.get_account(1).unwrap();
    let account_2 = bank.get_account(2).unwrap();

    assert_eq!(account_1.available, amt("1.5"));
    assert_eq!(account_1.held, amt("0.0"));
    assert!(!account_1.locked);
    assert_eq!(account_2.available, amt("2.0"));
    assert_eq!(account_2.held, amt("0.0"));
    assert!(!account_2.locked);
    assert_eq!(bank.num_logs(), 4)
}

#[test]
fn csv_withdrawal() {
    let bank = process(&[("deposit", 1, 1, Some("1.0")), ("withdrawal", 1, 2, Some("0.5678"))]);

    let account = bank.get_account(1).unwrap();

    assert_eq!(account.available, amt("0.4322"));
    assert_eq!(account.held, amt("0.0"));
}

#[test]
fn csv_withdrawal_insufficient() {
    let bank = process(&[("deposit", 1, 1, Some("1.0")), ("withdrawal", 1, 2, Some("2.0"))]);

    let account = bank.get_account(1).unwrap();

    assert_eq!(account.available, amt("1.0"));
    assert_eq!(account.held, amt("0.0"));
}

#[test]
fn total() {
    let bank = process(&[
        ("deposit", 1, 1, Some("2.0")),
        ("deposit", 1, 2, Some("0.66666")),
        ("dispute", 1, 2, None),
    ]);

    let account = bank.get_account(1).unwrap();

    assert_eq!(account.get_total(), Some(amt("2.6666")));
}

#[test]
fn locked() {
    let bank = process(&[
        ("deposit", 1, 1, Some("1.0")),
        ("deposit", 1, 2, Some("1.5")),
        ("dispute", 1, 1, None),
        ("chargeback", 1, 1, None),
        ("dispute", 1, 2, None),
        ("deposit", 1, 3, Some("5.0")),
    ]);

    let account = bank.get_account(1).unwrap();
    let tx = bank.get_logged_transaction(2).unwrap();

    assert!(account.locked);
    assert_eq!(account.available, amt("1.5"));
    assert_eq!(account.held, amt("0.0"));
    assert!(!tx.disputed);
}

#[test]
fn output() {
    let bank = process(&[("deposit", 1, 1, Some("1.0")), ("deposit", 1, 2, Some("2.2345"))]);
    let accounts: Vec<ledger::Account> = bank.accounts.values().copied().collect();
    let expected = "client, available, held, total, locked\n1, 3.2345, 0.0000, 3.2345, false\n";
    assert_eq!(ledger::report::render(&accounts), expected);
}
