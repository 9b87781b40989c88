use crate::amount::{in_range, Amount};
use crate::error::LedgerError;
use std::collections::HashMap;
use vstd::prelude::*;

verus! {

/// The accounts of a ledger, keyed by client id.
pub type Accounts = HashMap<u16, Account>;

/// The balances of one client. Available funds can be withdrawn; held funds
/// are frozen by a dispute. A chargeback locks the account, after which no
/// operation changes it again.
#[derive(Clone, Copy, Debug, PartialEq, Eq, Structural)]
pub struct Account {
    pub client_id: u16,
    pub available: Amount,
    pub held: Amount,
    pub locked: bool,
}

/// What an operation on an account gave: the account after it, or the reason
/// it was refused.
pub type AccountOutcome = Result<Account, LedgerError>;

/// An account with `available` and `held` replaced.
pub open spec fn with_balances(a: Account, available: int, held: int) -> Account {
    Account {
        available: Amount { scaled: available as i64 },
        held: Amount { scaled: held as i64 },
        ..a
    }
}

/// Whether an operation's result `r`, which moved the account from `before`
/// to `after`, is the one that `outcome` describes: on success the new
/// account, on failure the error and the account untouched.
pub open spec fn commits(
    before: Account,
    after: Account,
    r: Result<(), LedgerError>,
    outcome: AccountOutcome,
) -> bool {
    match outcome {
        Ok(next) => r == Ok::<(), LedgerError>(()) && after == next,
        Err(e) => r == Err::<(), LedgerError>(e) && after == before,
    }
}

impl Account {
    /// A fresh account of `client_id`: no funds, not locked.
    pub open spec fn fresh(client_id: u16) -> Account {
        Account {
            client_id,
            available: Amount { scaled: 0 },
            held: Amount { scaled: 0 },
            locked: false,
        }
    }

    /// The total of the account's funds, available and held.
    pub open spec fn total(self) -> int {
        self.available.scaled + self.held.scaled
    }

    /// A deposit adds to the available funds.
    pub open spec fn after_deposit(self, amount: Amount) -> AccountOutcome {
        let available = self.available.scaled + amount.scaled;
        if self.locked {
            Err(LedgerError::AccountLocked)
        } else if !in_range(available) {
            Err(LedgerError::AmountOverflow)
        } else {
            Ok(with_balances(self, available, self.held.scaled as int))
        }
    }

    /// A withdrawal takes from the available funds, never more than they hold.
    pub open spec fn after_withdraw(self, amount: Amount) -> AccountOutcome {
        let available = self.available.scaled - amount.scaled;
        if self.locked {
            Err(LedgerError::AccountLocked)
        } else if self.available.scaled < amount.scaled {
            Err(LedgerError::InsufficientFunds)
        } else if !in_range(available) {
            Err(LedgerError::AmountOverflow)
        } else {
            Ok(with_balances(self, available, self.held.scaled as int))
        }
    }

    /// A dispute moves funds from available to held; it can hold no more than
    /// is available.
    pub open spec fn after_dispute(self, amount: Amount) -> AccountOutcome {
        let available = self.available.scaled - amount.scaled;
        let held = self.held.scaled + amount.scaled;
        if self.locked {
            Err(LedgerError::AccountLocked)
        } else if self.available.scaled < amount.scaled {
            Err(LedgerError::InsufficientFunds)
        } else if !in_range(available) || !in_range(held) {
            Err(LedgerError::AmountOverflow)
        } else {
            Ok(with_balances(self, available, held))
        }
    }

    /// A resolution moves disputed funds back from held to available.
    pub open spec fn after_resolve(self, amount: Amount) -> AccountOutcome {
        let available = self.available.scaled + amount.scaled;
        let held = self.held.scaled - amount.scaled;
        if self.locked {
            Err(LedgerError::AccountLocked)
        } else if !in_range(available) || !in_range(held) {
            Err(LedgerError::AmountOverflow)
        } else {
            Ok(with_balances(self, available, held))
        }
    }

    /// A chargeback removes disputed funds from held and locks the account.
    pub open spec fn after_chargeback(self, amount: Amount) -> AccountOutcome {
        let held = self.held.scaled - amount.scaled;
        if self.locked {
            Err(LedgerError::AccountLocked)
        } else if !in_range(held) {
            Err(LedgerError::AmountOverflow)
        } else {
            Ok(Account { locked: true, ..with_balances(self, self.available.scaled as int, held) })
        }
    }

    /// Creates an account for `client_id` with no funds, unlocked.
    pub fn new(client_id: u16) -> (r: Account)
        ensures
            r == Account::fresh(client_id),
    {
        Account { client_id, available: Amount::zero(), held: Amount::zero(), locked: false }
    }

    /// Adds `amount` to the available funds.
    pub fn deposit(&mut self, amount: Amount) -> (r: Result<(), LedgerError>)
        ensures
            commits(*old(self), *final(self), r, old(self).after_deposit(amount)),
    {
        if self.locked {
            return Err(LedgerError::AccountLocked);
        }
        match self.available.checked_add(amount) {
            Some(available) => {
                self.available = available;
                Ok(())
            },
            None => Err(LedgerError::AmountOverflow),
        }
    }

    /// Takes `amount` from the available funds, failing where they hold less.
    pub fn withdraw(&mut self, amount: Amount) -> (r: Result<(), LedgerError>)
        ensures
            commits(*old(self), *final(self), r, old(self).after_withdraw(amount)),
    {
        if self.locked {
            return Err(LedgerError::AccountLocked);
        }
        if self.available.less_than(amount) {
            return Err(LedgerError::InsufficientFunds);
        }
        match self.available.checked_sub(amount) {
            Some(available) => {
                self.available = available;
                Ok(())
            },
            None => Err(LedgerError::AmountOverflow),
        }
    }

    /// Moves `amount` from available to held, failing where less is available.
    pub fn dispute(&mut self, amount: Amount) -> (r: Result<(), LedgerError>)
        ensures
            commits(*old(self), *final(self), r, old(self).after_dispute(amount)),
    {
        if self.locked {
            return Err(LedgerError::AccountLocked);
        }
        if self.available.less_than(amount) {
            return Err(LedgerError::InsufficientFunds);
        }
        match (self.available.checked_sub(amount), self.held.checked_add(amount)) {
            (Some(available), Some(held)) => {
                self.available = available;
                self.held = held;
                Ok(())
            },
            _ => Err(LedgerError::AmountOverflow),
        }
    }

    /// Moves `amount` from held back to available.
    pub fn resolve(&mut self, amount: Amount) -> (r: Result<(), LedgerError>)
        ensures
            commits(*old(self), *final(self), r, old(self).after_resolve(amount)),
    {
        if self.locked {
            return Err(LedgerError::AccountLocked);
        }
        match (self.available.checked_add(amount), self.held.checked_sub(amount)) {
            (Some(available), Some(held)) => {
                self.available = available;
                self.held = held;
                Ok(())
            },
            _ => Err(LedgerError::AmountOverflow),
        }
    }

    /// Removes `amount` from held and locks the account.
    pub fn chargeback(&mut self, amount: Amount) -> (r: Result<(), LedgerError>)
        ensures
            commits(*old(self), *final(self), r, old(self).after_chargeback(amount)),
    {
        if self.locked {
            return Err(LedgerError::AccountLocked);
        }
        match self.held.checked_sub(amount) {
            Some(held) => {
                self.held = held;
                self.locked = true;
                Ok(())
            },
            None => Err(LedgerError::AmountOverflow),
        }
    }

    /// The total balance of the account: available plus held, or `None` where
    /// that sum leaves the range of an amount.
    pub fn get_total(&self) -> (r: Option<Amount>)
        ensures
            r is Some <==> in_range(self.total()),
            r is Some ==> r->0.scaled == self.total(),
    {
        self.available.checked_add(self.held)
    }
}

} // verus!
