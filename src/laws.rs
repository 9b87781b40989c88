//! Properties of the ledger that hold for every state and every record,
//! stated over `step`, the meaning of applying one record.

use crate::account::Account;
use crate::amount::Amount;
use crate::error::LedgerError;
use crate::processable::account_for;
use crate::transaction::{LoggedTransaction, Transaction, TransactionKind};
use crate::worker::{replay, step};
use vstd::prelude::*;

verus! {

/// Whether `kind` is one of the kinds that refer to a logged transaction.
pub open spec fn refers_to_log(kind: TransactionKind) -> bool {
    kind == TransactionKind::Dispute || kind == TransactionKind::Resolve || kind
        == TransactionKind::Chargeback
}

/// The ledger's invariant: each account is keyed by its own client id, and
/// the client of every logged transaction has an account.
pub open spec fn ledger_well_formed(
    accounts: Map<u16, Account>,
    log: Map<u32, LoggedTransaction>,
) -> bool {
    &&& forall|c: u16| #[trigger] accounts.contains_key(c) ==> accounts[c].client_id == c
    &&& forall|tx: u32| #[trigger] log.contains_key(tx) ==> accounts.contains_key(log[tx].client)
}

/// Every record, applied or refused, keeps the ledger well formed.
pub proof fn lemma_step_preserves_well_formed(
    kind: Option<TransactionKind>,
    transaction: Transaction,
    accounts: Map<u16, Account>,
    log: Map<u32, LoggedTransaction>,
)
    requires
        ledger_well_formed(accounts, log),
    ensures
        ({
            let o = step(kind, transaction, accounts, log);
            ledger_well_formed(o.1, o.2)
        }),
{
    let o = step(kind, transaction, accounts, log);
    assert(account_for(accounts, transaction.client).client_id == transaction.client);
    assert forall|c: u16| #[trigger] o.1.contains_key(c) implies o.1[c].client_id == c by {
        if c != transaction.client {
            assert(accounts.contains_key(c));
        }
    }
    assert forall|tx: u32| #[trigger] o.2.contains_key(tx) implies o.1.contains_key(
        o.2[tx].client,
    ) by {
        if o.0 is Ok && tx != transaction.tx {
            assert(log.contains_key(tx));
        }
    }
}

/// A ledger that starts well formed stays well formed over any sequence of
/// records.
pub proof fn lemma_replay_preserves_well_formed(
    transactions: Seq<Transaction>,
    accounts: Map<u16, Account>,
    log: Map<u32, LoggedTransaction>,
)
    requires
        ledger_well_formed(accounts, log),
    ensures
        ({
            let r = replay(transactions, accounts, log);
            ledger_well_formed(r.0, r.1)
        }),
    decreases transactions.len(),
{
    if transactions.len() > 0 {
        lemma_replay_preserves_well_formed(transactions.drop_last(), accounts, log);
        let before = replay(transactions.drop_last(), accounts, log);
        let last = transactions.last();
        lemma_step_preserves_well_formed(last.kind(), last, before.0, before.1);
    }
}

/// A refused record changes nothing: neither the accounts nor the log.
pub proof fn lemma_refusal_changes_nothing(
    kind: Option<TransactionKind>,
    transaction: Transaction,
    accounts: Map<u16, Account>,
    log: Map<u32, LoggedTransaction>,
)
    ensures
        ({
            let o = step(kind, transaction, accounts, log);
            o.0 is Err ==> o.1 == accounts && o.2 == log
        }),
{
}

/// Two deposits with the same transaction id: where the first is applied,
/// the second is refused as a duplicate and changes nothing, so the log holds
/// one entry for the id, with the first deposit's amount.
pub proof fn lemma_duplicate_deposit(
    first: Transaction,
    second: Transaction,
    accounts: Map<u16, Account>,
    log: Map<u32, LoggedTransaction>,
)
    requires
        first.tx == second.tx,
    ensures
        ({
            let o1 = step(Some(TransactionKind::Deposit), first, accounts, log);
            let o2 = step(Some(TransactionKind::Deposit), second, o1.1, o1.2);
            o1.0 is Ok ==> {
                &&& o2 == (Err::<(), LedgerError>(LedgerError::DuplicateTransaction), o1.1, o1.2)
                &&& o2.2.dom() == log.dom().insert(first.tx)
                &&& o2.2[first.tx].amount == first.amount->0
            }
        }),
{
}

/// A deposit or withdrawal whose transaction id is already logged is refused
/// as a duplicate and changes nothing: the log keeps the one entry it had for
/// that id, with its first client and amount.
pub proof fn lemma_logged_id_refused(
    kind: TransactionKind,
    transaction: Transaction,
    accounts: Map<u16, Account>,
    log: Map<u32, LoggedTransaction>,
)
    requires
        kind == TransactionKind::Deposit || kind == TransactionKind::Withdrawal,
        log.contains_key(transaction.tx),
    ensures
        step(Some(kind), transaction, accounts, log) == (
            Err::<(), LedgerError>(LedgerError::DuplicateTransaction),
            accounts,
            log,
        ),
{
}

/// Amounts enter the ledger already clamped: an amount read from text, clamped
/// once more, is unchanged.
pub proof fn lemma_parsed_amount_is_clamped(text: Seq<char>)
    requires
        Amount::of_text(text) is Some,
    ensures
        Amount::of_text(text)->0.as_decimal().clamped() == Amount::of_text(text)->0.scaled,
{
    Amount::of_text(text)->0.lemma_as_decimal();
}

/// A dispute followed by a resolution of the same transaction: where the
/// dispute is applied, so is the resolution, and together they leave the
/// client's balances and the log as they were.
pub proof fn lemma_dispute_resolve_round_trip(
    dispute: Transaction,
    resolve: Transaction,
    accounts: Map<u16, Account>,
    log: Map<u32, LoggedTransaction>,
)
    requires
        dispute.client == resolve.client,
        dispute.tx == resolve.tx,
    ensures
        ({
            let o1 = step(Some(TransactionKind::Dispute), dispute, accounts, log);
            let o2 = step(Some(TransactionKind::Resolve), resolve, o1.1, o1.2);
            o1.0 is Ok ==> {
                &&& o2.0 is Ok
                &&& o2.1 == accounts.insert(dispute.client, account_for(accounts, dispute.client))
                &&& o2.2 == log
                &&& ledger_well_formed(accounts, log) ==> o2.1 == accounts
            }
        }),
{
    let o1 = step(Some(TransactionKind::Dispute), dispute, accounts, log);
    let o2 = step(Some(TransactionKind::Resolve), resolve, o1.1, o1.2);
    if o1.0 is Ok {
        assert(o1.1.insert(dispute.client, o2.1[dispute.client]) == o2.1);
        assert(o2.1 =~= accounts.insert(dispute.client, account_for(accounts, dispute.client)));
        assert(o2.2 =~= log);
        if ledger_well_formed(accounts, log) {
            assert(log.contains_key(dispute.tx));
            assert(accounts.contains_key(dispute.client));
            assert(o2.1 =~= accounts);
        }
    }
}

/// An applied chargeback removes the disputed amount from the held funds,
/// keeps the available funds, and locks the account.
pub proof fn lemma_chargeback_locks(
    transaction: Transaction,
    accounts: Map<u16, Account>,
    log: Map<u32, LoggedTransaction>,
)
    ensures
        ({
            let o = step(Some(TransactionKind::Chargeback), transaction, accounts, log);
            let before = account_for(accounts, transaction.client);
            let after = o.1[transaction.client];
            o.0 is Ok ==> {
                &&& after.locked
                &&& after.held.scaled == before.held.scaled - log[transaction.tx].amount.scaled
                &&& after.available == before.available
            }
        }),
{
}

/// A locked account is frozen: every record for its client is refused and
/// changes nothing.
pub proof fn lemma_locked_account_frozen(
    kind: Option<TransactionKind>,
    transaction: Transaction,
    accounts: Map<u16, Account>,
    log: Map<u32, LoggedTransaction>,
)
    requires
        accounts.contains_key(transaction.client),
        accounts[transaction.client].locked,
    ensures
        ({
            let o = step(kind, transaction, accounts, log);
            o.0 is Err && o.1 == accounts && o.2 == log
        }),
{
}

/// A withdrawal of more than the available funds is refused with
/// `InsufficientFunds` and changes nothing; in particular it is not logged.
pub proof fn lemma_withdrawal_insufficient(
    transaction: Transaction,
    accounts: Map<u16, Account>,
    log: Map<u32, LoggedTransaction>,
)
    requires
        !log.contains_key(transaction.tx),
        transaction.amount is Some,
        !account_for(accounts, transaction.client).locked,
        account_for(accounts, transaction.client).available.scaled
            < transaction.amount->0.scaled,
    ensures
        step(Some(TransactionKind::Withdrawal), transaction, accounts, log) == (
            Err::<(), LedgerError>(LedgerError::InsufficientFunds),
            accounts,
            log,
        ),
{
}

/// A dispute, resolve or chargeback of a transaction that was never logged
/// is refused with `UnknownTransactionReference` and changes nothing.
pub proof fn lemma_unreferenced(
    kind: TransactionKind,
    transaction: Transaction,
    accounts: Map<u16, Account>,
    log: Map<u32, LoggedTransaction>,
)
    requires
        refers_to_log(kind),
        !log.contains_key(transaction.tx),
    ensures
        step(Some(kind), transaction, accounts, log) == (
            Err::<(), LedgerError>(LedgerError::UnknownTransactionReference),
            accounts,
            log,
        ),
{
}

/// A dispute, resolve or chargeback whose client differs from the client of
/// the logged transaction is refused with `ClientMismatch` and changes
/// nothing, neither account.
pub proof fn lemma_client_mismatch(
    kind: TransactionKind,
    transaction: Transaction,
    accounts: Map<u16, Account>,
    log: Map<u32, LoggedTransaction>,
)
    requires
        refers_to_log(kind),
        log.contains_key(transaction.tx),
        log[transaction.tx].client != transaction.client,
    ensures
        step(Some(kind), transaction, accounts, log) == (
            Err::<(), LedgerError>(LedgerError::ClientMismatch),
            accounts,
            log,
        ),
{
}

/// A resolve or chargeback of a logged transaction that is not under dispute
/// is refused with `NotDisputed` and changes nothing.
pub proof fn lemma_not_disputed(
    kind: TransactionKind,
    transaction: Transaction,
    accounts: Map<u16, Account>,
    log: Map<u32, LoggedTransaction>,
)
    requires
        kind == TransactionKind::Resolve || kind == TransactionKind::Chargeback,
        log.contains_key(transaction.tx),
        log[transaction.tx].client == transaction.client,
        !log[transaction.tx].disputed,
    ensures
        step(Some(kind), transaction, accounts, log) == (
            Err::<(), LedgerError>(LedgerError::NotDisputed),
            accounts,
            log,
        ),
{
}

} // verus!
