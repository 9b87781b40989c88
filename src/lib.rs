//! A single-pass ledger engine: it replays transaction records against
//! client accounts, keeping a log of deposits and withdrawals so that later
//! disputes, resolutions and chargebacks can refer to them.

pub mod account;
pub mod amount;
pub mod decimal;
pub mod error;
pub mod laws;
pub mod processable;
pub mod report;
pub mod transaction;
pub mod worker;

pub use account::{Account, Accounts};
pub use amount::{Amount, RawDecimal};
pub use error::LedgerError;
pub use processable::{Chargeback, Deposit, Dispute, Processable, Resolve, Withdrawal};
pub use transaction::{LoggedTransaction, Transaction, TransactionKind, TransactionLog};
pub use worker::{Bank, Worker};
