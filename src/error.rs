use vstd::prelude::*;

verus! {

/// Why a record was not applied. Every failure leaves the ledger as it was.
#[derive(Clone, Copy, Debug, PartialEq, Eq, Structural)]
pub enum LedgerError {
    /// The record's fields could not be read (an amount that is not a number).
    MalformedRecord,
    /// The record's type names no known transaction kind.
    UnknownTransactionType,
    /// A deposit or withdrawal reuses a transaction id that is already logged.
    DuplicateTransaction,
    /// A deposit or withdrawal carries no amount.
    MissingAmount,
    /// The target account is locked.
    AccountLocked,
    /// The account's available funds are below the amount asked for.
    InsufficientFunds,
    /// A dispute, resolve or chargeback names a transaction that is not logged.
    UnknownTransactionReference,
    /// The record's client differs from the client of the logged transaction.
    ClientMismatch,
    /// The referenced transaction is already under dispute.
    AlreadyDisputed,
    /// The referenced transaction is not under dispute.
    NotDisputed,
    /// A balance would leave the range that an amount can hold.
    AmountOverflow,
}

} // verus!
