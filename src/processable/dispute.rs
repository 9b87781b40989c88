use super::{
    account_for,
    get_or_create_account,
    referenced,
    refused,
    set_disputed,
    validate_transaction_reference,
    Outcome,
    Processable,
};
use crate::account::{Account, Accounts};
use crate::error::LedgerError;
use crate::transaction::{LoggedTransaction, Transaction, TransactionLog};
use vstd::prelude::*;

verus! {

broadcast use vstd::std_specs::hash::group_hash_axioms;

/// Holds the funds of a logged transaction while it is disputed.
pub struct Dispute;

/// A dispute is refused where the logged transaction it names is missing,
/// belongs to another client or is already disputed, or where the account
/// refuses the hold (locked, or less available than the amount); otherwise
/// the amount moves from available to held and the transaction is marked
/// disputed.
pub open spec fn dispute_outcome(
    transaction: Transaction,
    accounts: Map<u16, Account>,
    log: Map<u32, LoggedTransaction>,
) -> Outcome {
    match referenced(log, transaction.client, transaction.tx, true) {
        Err(e) => refused(e, accounts, log),
        Ok(logged) => match account_for(accounts, transaction.client).after_dispute(logged.amount) {
            Err(e) => refused(e, accounts, log),
            Ok(account) => (
                Ok(()),
                accounts.insert(transaction.client, account),
                log.insert(transaction.tx, LoggedTransaction { disputed: true, ..logged }),
            ),
        },
    }
}

impl Processable for Dispute {
    open spec fn outcome(
        &self,
        transaction: Transaction,
        accounts: Map<u16, Account>,
        log: Map<u32, LoggedTransaction>,
    ) -> Outcome {
        dispute_outcome(transaction, accounts, log)
    }

    fn process(
        &self,
        transaction: &Transaction,
        accounts: &mut Accounts,
        log: &mut TransactionLog,
    ) -> (r: Result<(), LedgerError>) {
        let in_question = match validate_transaction_reference(log, transaction, true) {
            Ok(logged) => logged,
            Err(e) => return Err(e),
        };
        let mut account = get_or_create_account(accounts, transaction.client);
        match account.dispute(in_question.amount) {
            Ok(()) => {},
            Err(e) => return Err(e),
        }
        accounts.insert(transaction.client, account);
        set_disputed(log, transaction.tx, true)
    }
}

} // verus!
