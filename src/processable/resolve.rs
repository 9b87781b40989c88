use super::{
    account_for,
    get_or_create_account,
    referenced,
    refused,
    set_disputed,
    validate_transaction_reference,
    Outcome,
    Processable,
};
use crate::account::{Account, Accounts};
use crate::error::LedgerError;
use crate::transaction::{LoggedTransaction, Transaction, TransactionLog};
use vstd::prelude::*;

verus! {

broadcast use vstd::std_specs::hash::group_hash_axioms;

/// Ends a dispute in the client's favour, releasing the held funds.
pub struct Resolve;

/// A resolution is refused where the logged transaction it names is missing,
/// belongs to another client or is not disputed, or where the account is
/// locked; otherwise the amount moves from held back to available and the
/// transaction is no longer disputed.
pub open spec fn resolve_outcome(
    transaction: Transaction,
    accounts: Map<u16, Account>,
    log: Map<u32, LoggedTransaction>,
) -> Outcome {
    match referenced(log, transaction.client, transaction.tx, false) {
        Err(e) => refused(e, accounts, log),
        Ok(logged) => match account_for(accounts, transaction.client).after_resolve(logged.amount) {
            Err(e) => refused(e, accounts, log),
            Ok(account) => (
                Ok(()),
                accounts.insert(transaction.client, account),
                log.insert(transaction.tx, LoggedTransaction { disputed: false, ..logged }),
            ),
        },
    }
}

impl Processable for Resolve {
    open spec fn outcome(
        &self,
        transaction: Transaction,
        accounts: Map<u16, Account>,
        log: Map<u32, LoggedTransaction>,
    ) -> Outcome {
        resolve_outcome(transaction, accounts, log)
    }

    fn process(
        &self,
        transaction: &Transaction,
        accounts: &mut Accounts,
        log: &mut TransactionLog,
    ) -> (r: Result<(), LedgerError>) {
        let in_question = match validate_transaction_reference(log, transaction, false) {
            Ok(logged) => logged,
            Err(e) => return Err(e),
        };
        let mut account = get_or_create_account(accounts, transaction.client);
        match account.resolve(in_question.amount) {
            Ok(()) => {},
            Err(e) => return Err(e),
        }
        accounts.insert(transaction.client, account);
        set_disputed(log, transaction.tx, false)
    }
}

} // verus!
