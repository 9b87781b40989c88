use crate::account::{Account, Accounts};
use crate::error::LedgerError;
use crate::laws::{ledger_well_formed, lemma_replay_preserves_well_formed};
use crate::processable::{
    chargeback_outcome,
    deposit_outcome,
    dispute_outcome,
    resolve_outcome,
    withdrawal_outcome,
    Chargeback,
    Deposit,
    Dispute,
    Outcome,
    Processable,
    Resolve,
    Withdrawal,
};
use crate::transaction::{LoggedTransaction, Transaction, TransactionKind, TransactionLog};
use std::collections::HashMap;
use vstd::prelude::*;

verus! {

broadcast use vstd::std_specs::hash::group_hash_axioms;

/// What applying a record of kind `kind` gives; a record of no known kind is
/// refused with `UnknownTransactionType`.
pub open spec fn step(
    kind: Option<TransactionKind>,
    transaction: Transaction,
    accounts: Map<u16, Account>,
    log: Map<u32, LoggedTransaction>,
) -> Outcome {
    match kind {
        None => (Err(LedgerError::UnknownTransactionType), accounts, log),
        Some(TransactionKind::Deposit) => deposit_outcome(transaction, accounts, log),
        Some(TransactionKind::Withdrawal) => withdrawal_outcome(transaction, accounts, log),
        Some(TransactionKind::Dispute) => dispute_outcome(transaction, accounts, log),
        Some(TransactionKind::Resolve) => resolve_outcome(transaction, accounts, log),
        Some(TransactionKind::Chargeback) => chargeback_outcome(transaction, accounts, log),
    }
}

/// The accounts and the log after applying `transactions` in order, each
/// record seeing the state that the ones before it left.
pub open spec fn replay(
    transactions: Seq<Transaction>,
    accounts: Map<u16, Account>,
    log: Map<u32, LoggedTransaction>,
) -> (Map<u16, Account>, Map<u32, LoggedTransaction>)
    decreases transactions.len(),
{
    if transactions.len() == 0 {
        (accounts, log)
    } else {
        let before = replay(transactions.drop_last(), accounts, log);
        let last = transactions.last();
        let after = step(last.kind(), last, before.0, before.1);
        (after.1, after.2)
    }
}

/// The ledger: the accounts by client id and the log of applied deposits and
/// withdrawals by transaction id. Records are applied one at a time, each
/// whole or not at all.
pub struct Worker {
    pub accounts: Accounts,
    pub transaction_log: TransactionLog,
}

/// Another name for the ledger.
pub type Bank = Worker;

impl Worker {
    /// A ledger with no accounts and an empty log.
    pub fn new() -> (r: Worker)
        ensures
            r.accounts@ == Map::<u16, Account>::empty(),
            r.transaction_log@ == Map::<u32, LoggedTransaction>::empty(),
            ledger_well_formed(r.accounts@, r.transaction_log@),
    {
        Worker { accounts: HashMap::new(), transaction_log: HashMap::new() }
    }

    /// The number of accounts.
    pub fn num_accounts(&self) -> (r: usize)
        ensures
            r == self.accounts@.len(),
    {
        self.accounts.len()
    }

    /// The account of `client`, where it has one.
    pub fn get_account(&self, client: u16) -> (r: Option<&Account>)
        ensures
            r == (if self.accounts@.contains_key(client) {
                Some(&self.accounts@[client])
            } else {
                None
            }),
    {
        self.accounts.get(&client)
    }

    /// The number of logged transactions.
    pub fn num_logs(&self) -> (r: usize)
        ensures
            r == self.transaction_log@.len(),
    {
        self.transaction_log.len()
    }

    /// The logged transaction `tx`, where it is logged.
    pub fn get_logged_transaction(&self, tx: u32) -> (r: Option<&LoggedTransaction>)
        ensures
            r == (if self.transaction_log@.contains_key(tx) {
                Some(&self.transaction_log@[tx])
            } else {
                None
            }),
    {
        self.transaction_log.get(&tx)
    }

    /// Applies `transaction` as a record of kind `kind`, through that kind's
    /// handler, or refuses it and leaves the ledger as it was.
    pub fn apply(&mut self, kind: TransactionKind, transaction: &Transaction) -> (r: Result<
        (),
        LedgerError,
    >)
        ensures
            step(Some(kind), *transaction, old(self).accounts@, old(self).transaction_log@) == (
                r,
                final(self).accounts@,
                final(self).transaction_log@,
            ),
    {
        match kind {
            TransactionKind::Deposit => Deposit.process(
                transaction,
                &mut self.accounts,
                &mut self.transaction_log,
            ),
            TransactionKind::Withdrawal => Withdrawal.process(
                transaction,
                &mut self.accounts,
                &mut self.transaction_log,
            ),
            TransactionKind::Dispute => Dispute.process(
                transaction,
                &mut self.accounts,
                &mut self.transaction_log,
            ),
            TransactionKind::Resolve => Resolve.process(
                transaction,
                &mut self.accounts,
                &mut self.transaction_log,
            ),
            TransactionKind::Chargeback => Chargeback.process(
                transaction,
                &mut self.accounts,
                &mut self.transaction_log,
            ),
        }
    }

    /// Applies one record by the kind that its type names, in any
    /// capitalisation; a type of no known kind is refused with
    /// `UnknownTransactionType`. A refused record leaves the ledger as it was.
    pub fn handle_transaction(&mut self, transaction: &Transaction) -> (r: Result<
        (),
        LedgerError,
    >)
        ensures
            step(transaction.kind(), *transaction, old(self).accounts@, old(self).transaction_log@)
                == (r, final(self).accounts@, final(self).transaction_log@),
    {
        match transaction.get_kind() {
            Some(kind) => self.apply(kind, transaction),
            None => Err(LedgerError::UnknownTransactionType),
        }
    }

    /// Applies the records in order. A refused record is skipped and the run
    /// goes on; the result holds, for each record, what applying it gave.
    pub fn process_transactions(&mut self, transactions: &Vec<Transaction>) -> (r: Vec<
        Result<(), LedgerError>,
    >)
        ensures
            (final(self).accounts@, final(self).transaction_log@) == replay(
                transactions@,
                old(self).accounts@,
                old(self).transaction_log@,
            ),
            ledger_well_formed(old(self).accounts@, old(self).transaction_log@) ==> ledger_well_formed(
                final(self).accounts@,
                final(self).transaction_log@,
            ),
            r@.len() == transactions@.len(),
            forall|i: int|
                0 <= i < transactions@.len() ==> {
                    let before = #[trigger] replay(
                        transactions@.take(i),
                        old(self).accounts@,
                        old(self).transaction_log@,
                    );
                    r@[i] == step(transactions@[i].kind(), transactions@[i], before.0, before.1).0
                },
    {
        let ghost accounts0 = self.accounts@;
        let ghost log0 = self.transaction_log@;
        let mut results: Vec<Result<(), LedgerError>> = Vec::new();
        let n = transactions.len();
        let mut i: usize = 0;
        while i < n
            invariant
                n == transactions@.len(),
                i <= n,
                results@.len() == i,
                (self.accounts@, self.transaction_log@) == replay(
                    transactions@.take(i as int),
                    accounts0,
                    log0,
                ),
                forall|j: int|
                    0 <= j < i ==> {
                        let before = #[trigger] replay(transactions@.take(j), accounts0, log0);
                        results@[j] == step(
                            transactions@[j].kind(),
                            transactions@[j],
                            before.0,
                            before.1,
                        ).0
                    },
            decreases n - i,
        {
            let ghost prefix = transactions@.take(i as int);
            let outcome = self.handle_transaction(&transactions[i]);
            proof {
                let next = transactions@.take(i + 1);
                assert(next.drop_last() =~= prefix);
                assert(next.last() == transactions@[i as int]);
            }
            results.push(outcome);
            i = i + 1;
        }
        assert(transactions@.take(n as int) =~= transactions@);
        proof {
            if ledger_well_formed(accounts0, log0) {
                lemma_replay_preserves_well_formed(transactions@, accounts0, log0);
            }
        }
        results
    }
}

} // verus!
