use crate::amount::Amount;
use crate::error::LedgerError;
use std::collections::HashMap;
use vstd::prelude::*;

verus! {

/// The log of applied deposits and withdrawals, keyed by transaction id.
pub type TransactionLog = HashMap<u32, LoggedTransaction>;

/// The five kinds of transaction that a record can name.
#[derive(Clone, Copy, Debug, PartialEq, Eq, Structural)]
pub enum TransactionKind {
    Deposit,
    Withdrawal,
    Dispute,
    Resolve,
    Chargeback,
}

/// What `str::to_lowercase` makes of a string.
pub uninterp spec fn lower_of(s: Seq<char>) -> Seq<char>;

/// Relies on `str::to_lowercase`: the lowercase form of `s`, which depends on
/// its characters alone.
#[verifier::external_body]
fn lowercase(s: &str) -> (r: String)
    ensures
        r@ == lower_of(s@),
{
    s.to_lowercase()
}

/// The kind that a lowercase type name stands for, if any.
pub open spec fn kind_named(name: Seq<char>) -> Option<TransactionKind> {
    if name == "deposit"@ {
        Some(TransactionKind::Deposit)
    } else if name == "withdrawal"@ {
        Some(TransactionKind::Withdrawal)
    } else if name == "dispute"@ {
        Some(TransactionKind::Dispute)
    } else if name == "resolve"@ {
        Some(TransactionKind::Resolve)
    } else if name == "chargeback"@ {
        Some(TransactionKind::Chargeback)
    } else {
        None
    }
}

/// Whether two strings hold the same characters.
fn same_text(a: &str, b: &str) -> (r: bool)
    ensures
        r == (a@ == b@),
{
    let n = a.unicode_len();
    if n != b.unicode_len() {
        return false;
    }
    let mut i: usize = 0;
    while i < n
        invariant
            n == a@.len() == b@.len(),
            i <= n,
            a@.subrange(0, i as int) == b@.subrange(0, i as int),
        decreases n - i,
    {
        if a.get_char(i) != b.get_char(i) {
            return false;
        }
        assert(a@.subrange(0, i + 1) =~= a@.subrange(0, i as int).push(a@[i as int]));
        assert(b@.subrange(0, i + 1) =~= b@.subrange(0, i as int).push(b@[i as int]));
        i = i + 1;
    }
    assert(a@ =~= a@.subrange(0, n as int));
    assert(b@ =~= b@.subrange(0, n as int));
    true
}

impl TransactionKind {
    /// The kind that a lowercase type name stands for: one of `deposit`,
    /// `withdrawal`, `dispute`, `resolve` and `chargeback`, or `None`.
    pub fn from_name(name: &str) -> (r: Option<TransactionKind>)
        ensures
            r == kind_named(name@),
    {
        if same_text(name, "deposit") {
            Some(TransactionKind::Deposit)
        } else if same_text(name, "withdrawal") {
            Some(TransactionKind::Withdrawal)
        } else if same_text(name, "dispute") {
            Some(TransactionKind::Dispute)
        } else if same_text(name, "resolve") {
            Some(TransactionKind::Resolve)
        } else if same_text(name, "chargeback") {
            Some(TransactionKind::Chargeback)
        } else {
            None
        }
    }
}

/// One input record: a type name (in any capitalisation), a client, a
/// transaction id and an amount, which only deposits and withdrawals need.
#[derive(Debug)]
pub struct Transaction {
    pub tx_type: String,
    pub client: u16,
    pub tx: u32,
    pub amount: Option<Amount>,
}

impl Transaction {
    /// The kind that the record's type names, whatever its capitalisation.
    pub open spec fn kind(&self) -> Option<TransactionKind> {
        kind_named(lower_of(self.tx_type@))
    }

    /// Builds a record from its fields.
    pub fn new(tx_type: String, client: u16, tx: u32, amount: Option<Amount>) -> (r: Transaction)
        ensures
            r.tx_type@ == tx_type@,
            r.client == client,
            r.tx == tx,
            r.amount == amount,
    {
        Transaction { tx_type, client, tx, amount }
    }

    /// Builds a record from the fields of an input row, the amount still as
    /// text. An absent or empty amount is no amount; one that is no decimal
    /// number, or leaves the range of an amount, makes the row malformed.
    pub fn from_fields(tx_type: String, client: u16, tx: u32, amount: Option<&str>) -> (r: Result<
        Transaction,
        LedgerError,
    >)
        ensures
            match amount {
                Some(text) if text@.len() > 0 => match Amount::of_text(text@) {
                    Some(a) => r is Ok && r->Ok_0.amount == Some(a),
                    None => r == Err::<Transaction, LedgerError>(LedgerError::MalformedRecord),
                },
                _ => r is Ok && r->Ok_0.amount is None,
            },
            r is Ok ==> r->Ok_0.tx_type@ == tx_type@ && r->Ok_0.client == client && r->Ok_0.tx == tx,
    {
        let parsed = match amount {
            Some(text) => {
                if text.unicode_len() == 0 {
                    None
                } else {
                    match Amount::parse(text) {
                        Some(a) => Some(a),
                        None => return Err(LedgerError::MalformedRecord),
                    }
                }
            },
            None => None,
        };
        Ok(Transaction { tx_type, client, tx, amount: parsed })
    }

    /// The record's type name in lowercase.
    pub fn get_type(&self) -> (r: String)
        ensures
            r@ == lower_of(self.tx_type@),
    {
        lowercase(self.tx_type.as_str())
    }

    /// The kind that the record's type names, whatever its capitalisation.
    pub fn get_kind(&self) -> (r: Option<TransactionKind>)
        ensures
            r == self.kind(),
    {
        let name = self.get_type();
        TransactionKind::from_name(name.as_str())
    }
}

/// What the log keeps of an applied deposit or withdrawal: its client, its
/// amount, and whether it is under dispute.
#[derive(Clone, Copy, Debug, PartialEq, Eq, Structural)]
pub struct LoggedTransaction {
    pub client: u16,
    pub amount: Amount,
    pub disputed: bool,
}

impl LoggedTransaction {
    /// The log entry of a record: `MissingAmount` where it has no amount.
    pub open spec fn of(transaction: Transaction) -> Result<LoggedTransaction, LedgerError> {
        match transaction.amount {
            Some(amount) => Ok(LoggedTransaction { client: transaction.client, amount, disputed: false }),
            None => Err(LedgerError::MissingAmount),
        }
    }

    /// Turns a record into its log entry, not disputed; fails with
    /// `MissingAmount` where the record has no amount.
    pub fn try_from(transaction: &Transaction) -> (r: Result<LoggedTransaction, LedgerError>)
        ensures
            r == LoggedTransaction::of(*transaction),
    {
        match transaction.amount {
            Some(amount) => Ok(LoggedTransaction { client: transaction.client, amount, disputed: false }),
            None => Err(LedgerError::MissingAmount),
        }
    }
}

} // verus!
