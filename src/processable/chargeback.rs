use super::{
    account_for,
    get_or_create_account,
    referenced,
    refused,
    validate_transaction_reference,
    Outcome,
    Processable,
};
use crate::account::{Account, Accounts};
use crate::error::LedgerError;
use crate::transaction::{LoggedTransaction, Transaction, TransactionLog};
use vstd::prelude::*;

verus! {

broadcast use vstd::std_specs::hash::group_hash_axioms;

/// Ends a dispute against the client: the held funds leave the account and
/// the account is locked for good.
pub struct Chargeback;

/// A chargeback is refused where the logged transaction it names is missing,
/// belongs to another client or is not disputed, or where the account is
/// locked; otherwise the amount leaves the held funds and the account is
/// locked. The transaction stays marked disputed.
pub open spec fn chargeback_outcome(
    transaction: Transaction,
    accounts: Map<u16, Account>,
    log: Map<u32, LoggedTransaction>,
) -> Outcome {
    match referenced(log, transaction.client, transaction.tx, false) {
        Err(e) => refused(e, accounts, log),
        Ok(logged) => match account_for(accounts, transaction.client).after_chargeback(
            logged.amount,
        ) {
            Err(e) => refused(e, accounts, log),
            Ok(account) => (Ok(()), accounts.insert(transaction.client, account), log),
        },
    }
}

impl Processable for Chargeback {
    open spec fn outcome(
        &self,
        transaction: Transaction,
        accounts: Map<u16, Account>,
        log: Map<u32, LoggedTransaction>,
    ) -> Outcome {
        chargeback_outcome(transaction, accounts, log)
    }

    fn process(
        &self,
        transaction: &Transaction,
        accounts: &mut Accounts,
        log: &mut TransactionLog,
    ) -> (r: Result<(), LedgerError>) {
        let in_question = match validate_transaction_reference(log, transaction, false) {
            Ok(logged) => logged,
            Err(e) => return Err(e),
        };
        let mut account = get_or_create_account(accounts, transaction.client);
        match account.chargeback(in_question.amount) {
            Ok(()) => {},
            Err(e) => return Err(e),
        }
        accounts.insert(transaction.client, account);
        Ok(())
    }
}

} // verus!
