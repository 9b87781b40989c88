//! One handler per transaction kind. Each decides, from a record and the
//! ledger's two maps, whether the record applies, and applies it whole or
//! not at all.

mod chargeback;
mod deposit;
mod dispute;
mod resolve;
mod withdrawal;

pub use chargeback::{chargeback_outcome, Chargeback};
pub use deposit::{deposit_outcome, Deposit};
pub use dispute::{dispute_outcome, Dispute};
pub use resolve::{resolve_outcome, Resolve};
pub use withdrawal::{withdrawal_outcome, Withdrawal};

use crate::account::{Account, Accounts};
use crate::error::LedgerError;
use crate::transaction::{LoggedTransaction, Transaction, TransactionLog};
use vstd::prelude::*;

verus! {

broadcast use vstd::std_specs::hash::group_hash_axioms;

/// What applying a record gives: its result, then the accounts and the log
/// after it.
pub type Outcome = (Result<(), LedgerError>, Map<u16, Account>, Map<u32, LoggedTransaction>);

/// The outcome of a refused record: the error, and both maps as they were.
pub open spec fn refused(
    e: LedgerError,
    accounts: Map<u16, Account>,
    log: Map<u32, LoggedTransaction>,
) -> Outcome {
    (Err(e), accounts, log)
}

/// The account of `client`, or a fresh one where the client has none yet.
pub open spec fn account_for(accounts: Map<u16, Account>, client: u16) -> Account {
    if accounts.contains_key(client) {
        accounts[client]
    } else {
        Account::fresh(client)
    }
}

/// The logged transaction that a dispute, resolve or chargeback refers to,
/// where it exists, belongs to `client`, and does not already have the
/// disputed state `disputed`: one already disputed is refused with
/// `AlreadyDisputed` when `disputed` is set, one not disputed is refused
/// with `NotDisputed` when it is not.
pub open spec fn referenced(
    log: Map<u32, LoggedTransaction>,
    client: u16,
    tx: u32,
    disputed: bool,
) -> Result<LoggedTransaction, LedgerError> {
    if !log.contains_key(tx) {
        Err(LedgerError::UnknownTransactionReference)
    } else if log[tx].client != client {
        Err(LedgerError::ClientMismatch)
    } else if log[tx].disputed == disputed {
        if disputed {
            Err(LedgerError::AlreadyDisputed)
        } else {
            Err(LedgerError::NotDisputed)
        }
    } else {
        Ok(log[tx])
    }
}

/// A decision procedure for one kind of transaction.
pub trait Processable {
    /// What applying `transaction` to the two maps gives.
    spec fn outcome(
        &self,
        transaction: Transaction,
        accounts: Map<u16, Account>,
        log: Map<u32, LoggedTransaction>,
    ) -> Outcome;

    /// Applies `transaction` to the accounts and the log, or refuses it and
    /// leaves both as they were.
    fn process(
        &self,
        transaction: &Transaction,
        accounts: &mut Accounts,
        log: &mut TransactionLog,
    ) -> (r: Result<(), LedgerError>)
        ensures
            self.outcome(*transaction, old(accounts)@, old(log)@) == (r, final(accounts)@, final(log)@),
    ;
}

/// The account of `client`, or a fresh one where the client has none yet.
/// The map itself is not changed.
pub fn get_or_create_account(accounts: &Accounts, client: u16) -> (r: Account)
    ensures
        r == account_for(accounts@, client),
{
    match accounts.get(&client) {
        Some(account) => *account,
        None => Account::new(client),
    }
}

/// Checks the logged transaction that `transaction` refers to: it must exist,
/// belong to the same client, and not already be in the disputed state
/// `disputed` (a dispute passes `true`, a resolve or chargeback `false`).
/// Returns a copy of it.
pub fn validate_transaction_reference(
    log: &TransactionLog,
    transaction: &Transaction,
    disputed: bool,
) -> (r: Result<LoggedTransaction, LedgerError>)
    ensures
        r == referenced(log@, transaction.client, transaction.tx, disputed),
{
    let in_question = match log.get(&transaction.tx) {
        Some(logged) => *logged,
        None => return Err(LedgerError::UnknownTransactionReference),
    };
    if in_question.client != transaction.client {
        return Err(LedgerError::ClientMismatch);
    }
    if in_question.disputed == disputed {
        if disputed {
            return Err(LedgerError::AlreadyDisputed);
        } else {
            return Err(LedgerError::NotDisputed);
        }
    }
    Ok(in_question)
}

/// Logs `transaction` under its id, not disputed; fails with `MissingAmount`,
/// leaving the log as it was, where the record has no amount.
pub fn log_transaction(log: &mut TransactionLog, transaction: &Transaction) -> (r: Result<
    (),
    LedgerError,
>)
    ensures
        match LoggedTransaction::of(*transaction) {
            Ok(logged) => r == Ok::<(), LedgerError>(()) && final(log)@ == old(log)@.insert(transaction.tx, logged),
            Err(e) => r == Err::<(), LedgerError>(e) && final(log)@ == old(log)@,
        },
{
    match LoggedTransaction::try_from(transaction) {
        Ok(logged) => {
            log.insert(transaction.tx, logged);
            Ok(())
        },
        Err(e) => Err(e),
    }
}

/// Marks the logged transaction `tx` as disputed or not; fails with
/// `UnknownTransactionReference`, leaving the log as it was, where `tx` is
/// not logged.
pub fn set_disputed(log: &mut TransactionLog, tx: u32, disputed: bool) -> (r: Result<
    (),
    LedgerError,
>)
    ensures
        old(log)@.contains_key(tx) ==> r == Ok::<(), LedgerError>(()) && final(log)@ == old(log)@.insert(
            tx,
            LoggedTransaction { disputed, ..old(log)@[tx] },
        ),
        !old(log)@.contains_key(tx) ==> r == Err::<(), LedgerError>(
            LedgerError::UnknownTransactionReference,
        ) && final(log)@ == old(log)@,
{
    match log.get(&tx) {
        Some(logged) => {
            let updated = LoggedTransaction { disputed, ..*logged };
            log.insert(tx, updated);
            Ok(())
        },
        None => Err(LedgerError::UnknownTransactionReference),
    }
}

} // verus!
