use super::{account_for, log_transaction, get_or_create_account, refused, Outcome, Processable};
use crate::account::{Account, Accounts};
use crate::error::LedgerError;
use crate::transaction::{LoggedTransaction, Transaction, TransactionLog};
use vstd::prelude::*;

verus! {

broadcast use vstd::std_specs::hash::group_hash_axioms;

/// Credits a client's available funds and logs the deposit.
pub struct Deposit;

/// A deposit is refused where its id is already logged, where it has no
/// amount, or where the account refuses the credit; otherwise the account is
/// credited (created first where the client is new) and the deposit logged.
pub open spec fn deposit_outcome(
    transaction: Transaction,
    accounts: Map<u16, Account>,
    log: Map<u32, LoggedTransaction>,
) -> Outcome {
    if log.contains_key(transaction.tx) {
        refused(LedgerError::DuplicateTransaction, accounts, log)
    } else {
        match transaction.amount {
            None => refused(LedgerError::MissingAmount, accounts, log),
            Some(amount) => match account_for(accounts, transaction.client).after_deposit(amount) {
                Err(e) => refused(e, accounts, log),
                Ok(account) => (
                    Ok(()),
                    accounts.insert(transaction.client, account),
                    log.insert(
                        transaction.tx,
                        LoggedTransaction { client: transaction.client, amount, disputed: false },
                    ),
                ),
            },
        }
    }
}

impl Processable for Deposit {
    open spec fn outcome(
        &self,
        transaction: Transaction,
        accounts: Map<u16, Account>,
        log: Map<u32, LoggedTransaction>,
    ) -> Outcome {
        deposit_outcome(transaction, accounts, log)
    }

    fn process(
        &self,
        transaction: &Transaction,
        accounts: &mut Accounts,
        log: &mut TransactionLog,
    ) -> (r: Result<(), LedgerError>) {
        if log.contains_key(&transaction.tx) {
            return Err(LedgerError::DuplicateTransaction);
        }
        let amount = match transaction.amount {
            Some(amount) => amount,
            None => return Err(LedgerError::MissingAmount),
        };
        let mut account = get_or_create_account(accounts, transaction.client);
        match account.deposit(amount) {
            Ok(()) => {},
            Err(e) => return Err(e),
        }
        accounts.insert(transaction.client, account);
        log_transaction(log, transaction)
    }
}

} // verus!
