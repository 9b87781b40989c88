use ledger::{Amount, Transaction, Worker};

fn amt(text: &str) -> Amount {
    Amount::parse(text).unwrap()
}

/// Builds the records of `rows` as an input reader would, skipping the rows
/// that do not parse, and applies them to a new ledger.
fn process_worker(rows: &[(&str, u16, u32, Option<&str>)]) -> Worker {
    let records: Vec<Transaction> = rows
        .iter()
        .filter_map(|(ty, client, tx, amount)| {
            Transaction::from_fields(ty.to_string(), *client, *tx, *amount).ok()
        })
        .collect();
    let mut worker = Worker::new();
    let results = worker.process_transactions(&records);
    assert_eq!(results.len(), records.len());
    worker
}

#[test]
fn mod_chargeback() {
    let worker = process_worker(&[("deposit", 1, 1, Some("1.0")), ("chargeback", 1, 1, None)]);

    let account = worker.accounts.get(&1).unwrap();
    let tx = worker.transaction_log.get(&1).unwrap();

    assert_ne!(account.available, amt("0.0"));
    assert_eq!(account.held, amt("0.0"));
    assert!(!account.locked);
    assert!(!tx.disputed);
}

#[test]
fn mod_chargeback_dispute() {
    let worker = process_worker(&[
        ("deposit", 1, 1, Some("1.0")),
        ("dispute", 1, 1, None),
        ("chargeback", 1, 1, None),
    ]);

    let account = worker.accounts.get(&1).unwrap();
    let tx = worker.transaction_log.get(&1).unwrap();

    assert_eq!(account.available, amt("0.0"));
    assert_eq!(account.held, amt("0.0"));
    assert!(account.locked);
    assert!(tx.disputed);
}

#[test]
fn mod_chargeback_no_tx() {
    let worker = process_worker(&[
        ("deposit", 1, 1, Some("1.0")),
        ("dispute", 1, 1, None),
        ("chargeback", 1, 2, None),
    ]);

    let account = worker.accounts.get(&1).unwrap();
    let tx = worker.transaction_log.get(&1).unwrap();

    assert_eq!(account.available, amt("0.0"));
    assert_eq!(account.held, amt("1.0"));
    assert!(!account.locked);
    assert!(tx.disputed);
}

#[test]
fn mod_decimals() {
    let worker = process_worker(&[
        ("deposit", 1, 1, Some("0.55555")),
        ("deposit", 1, 2, Some("0.00001")),
    ]);

    let account = worker.accounts.get(&1).unwrap();
    let tx_1 = worker.transaction_log.get(&1).unwrap();
    let tx_2 = worker.transaction_log.get(&2).unwrap();

    assert_eq!(account.available, amt("0.5555"));
    assert_eq!(tx_1.amount, amt("0.5555"));
    assert_eq!(tx_2.amount, amt("0.0"));
}

#[test]
fn mod_deposit() {
    let worker = process_worker(&[("deposit", 1, 1, Some("1.0")), ("deposit", 1, 2, Some("2.2345"))]);

    let account = worker.accounts.get(&1).unwrap();

    assert_eq!(account.available, amt("3.2345"));
}

#[test]
fn mod_dispute() {
    let worker = process_worker(&[("deposit", 1, 1, Some("1.0")), ("dispute", 1, 1, None)]);

    let account = worker.accounts.get(&1).unwrap();
    let tx = worker.transaction_log.get(&1).unwrap();

    assert_eq!(account.available, amt("0.0"));
    assert_eq!(account.held, amt("1.0"));
    assert!(tx.disputed);
}

#[test]
fn mod_dispute_no_tx() {
    let worker = process_worker(&[("deposit", 1, 1, Some("1.0")), ("dispute", 1, 2, None)]);

    let account = worker.accounts.get(&1).unwrap();
    let tx = worker.transaction_log.get(&1).unwrap();

    assert_eq!(account.available, amt("1.0"));
    assert_eq!(account.held, amt("0.0"));
    assert!(!tx.disputed);
}

#[test]
fn mod_duplicate_tx() {
    let worker = process_worker(&[
        ("deposit", 1, 1, Some("2.0")),
        ("deposit", 1, 1, Some("3.0")),
        ("withdrawal", 1, 2, Some("0.5")),
        ("deposit", 1, 2, Some("4.0")),
    ]);

    let account = worker.accounts.get(&1).unwrap();
    let tx_1 = worker.transaction_log.get(&1).unwrap();
    let tx_2 = worker.transaction_log.get(&2).unwrap();

    assert_eq!(account.available, amt("1.5"));
    assert_eq!(tx_1.amount, amt("2.0"));
    assert_eq!(tx_2.amount, amt("0.5"));
}

#[test]
fn mod_failed_parse() {
    let worker = process_worker(&[
        ("deposit", 1, 1, Some("one")),
        ("withdrawal", 1, 2, Some("1.2.3")),
        ("deposit", 2, 3, Some("-")),
    ]);

    assert_eq!(worker.accounts.len(), 0);
    assert_eq!(worker.transaction_log.len(), 0);
}

#[test]
fn mod_misordered_client() {
    let worker = process_worker(&[("deposit", 2, 1, Some("2.0")), ("deposit", 1, 2, Some("3.0"))]);

    let account_1 = worker.accounts.get(&1).unwrap();
    let account_2 = worker.accounts.get(&2).unwrap();

    assert_eq!(account_1.available, amt("3.0"));
    assert_eq!(account_2.available, amt("2.0"));
}

#[test]
fn mod_misordered_tx() {
    let worker = process_worker(&[("deposit", 1, 3, Some("2.0")), ("deposit", 2, 1, Some("3.0"))]);

    let account_1 = worker.accounts.get(&1).unwrap();
    let account_2 = worker.accounts.get(&2).unwrap();

    assert_eq!(account_1.available, amt("2.0"));
    assert_eq!(account_2.available, amt("3.0"));
}

#[test]
fn mod_optional_amount() {
    let rows = [("dispute", 1u16, 1u32, None), ("resolve", 1u16, 1u32, Some(""))];
    let mut count = 0;
    for (ty, client, tx, amount) in rows {
        let transaction = Transaction::from_fields(ty.to_string(), client, tx, amount).unwrap();
        assert!(transaction.amount.is_none());
        count += 1;
    }
    assert_eq!(count, 2);
}

#[test]
fn mod_resolve() {
    let worker = process_worker(&[
        ("deposit", 1, 1, Some("2.0")),
        ("dispute", 1, 1, None),
        ("resolve", 1, 1, None),
    ]);

    let account = worker.accounts.get(&1).unwrap();
    let tx = worker.transaction_log.get(&1).unwrap();

    assert_eq!(account.available, amt("2.0"));
    assert_eq!(account.held, amt("0.0"));
    assert!(!tx.disputed);
}

#[test]
fn mod_resolve_no_tx() {
    let worker = process_worker(&[
        ("deposit", 1, 1, Some("2.0")),
        ("dispute", 1, 1, None),
        ("resolve", 1, 2, None),
    ]);

    let account = worker.accounts.get(&1).unwrap();
    let tx = worker.transaction_log.get(&1).unwrap();

    assert_eq!(account.available, amt("0.0"));
    assert_eq!(account.held, amt("2.0"));
    assert!(tx.disputed);
}

#[test]
fn mod_resolved_dispute() {
    let worker = process_worker(&[
        ("deposit", 1, 1, Some("2.0")),
        ("dispute", 1, 1, None),
        ("resolve", 1, 1, None),
        ("resolve", 1, 1, None),
    ]);

    let account = worker.accounts.get(&1).unwrap();
    let tx = worker.transaction_log.get(&1).unwrap();

    assert_eq!(account.available, amt("2.0"));
    assert_eq!(account.held, amt("0.0"));
    assert!(!tx.disputed);
}

#[test]
fn mod_sample() {
    let worker = process_worker(&[
        ("deposit", 1, 1, Some("1.0")),
        ("deposit", 2, 2, Some("2.0")),
        ("deposit", 1, 3, Some("2.0")),
        ("withdrawal", 1, 4, Some("1.5")),
        ("withdrawal", 2, 5, Some("3.0")),
    ]);

    let account_1 = worker.accounts.get(&1).unwrap();
    let account_2 = worker.accounts.get(&2).unwrap();

    assert_eq!(account_1.available, amt("1.5"));
    assert_eq!(account_1.held, amt("0.0"));
    assert!(!account_1.locked);
    assert_eq!(account_2.available, amt("2.0"));
    assert_eq!(account_2.held, amt("0.0"));
    assert!(!account_2.locked);
    assert_eq!(worker.transaction_log.len(), 4)
}

#[test]
fn mod_withdrawal() {
    let worker = process_worker(&[("deposit", 1, 1, Some("1.0")), ("withdrawal", 1, 2, Some("0.5678"))]);

    let account = worker.accounts.get(&1).unwrap();

    assert_eq!(account.available, amt("0.4322"));
    assert_eq!(account.held, amt("0.0"));
}

#[test]
fn mod_withdrawal_insufficient() {
    let worker = process_worker(&[("deposit", 1, 1, Some("1.0")), ("withdrawal", 1, 2, Some("2.0"))]);

    let account = worker.accounts.get(&1).unwrap();

    assert_eq!(account.available, amt("1.0"));
    assert_eq!(account.held, amt("0.0"));
}
