//! The value-transfer primitive: a ledger of principal balances, keyed by
//! principal identifier. `transfer` atomically debits the sender and credits
//! the recipient; a principal with no entry holds a balance of zero. A
//! transfer that cannot complete (insufficient funds, or a credit that would
//! wrap the recipient's 64-bit balance) leaves every balance untouched.

use std::collections::HashMap;
use vstd::prelude::*;

use crate::errors::DepositError;

verus! {

/// The balances of all value-holding principals.
pub struct Balances {
    accounts: HashMap<u64, u64>,
}

impl View for Balances {
    type V = Map<u64, u64>;

    closed spec fn view(&self) -> Map<u64, u64> {
        self.accounts@
    }
}

impl Balances {
    /// The balance held by principal `p`: its entry, or zero if it has none.
    pub open spec fn balance_of(self, p: u64) -> u64 {
        if self@.contains_key(p) {
            self@[p]
        } else {
            0
        }
    }

    /// An empty ledger: every principal holds zero.
    pub fn new() -> (ledger: Balances)
        ensures
            ledger@ == Map::<u64, u64>::empty(),
            forall|p: u64| ledger.balance_of(p) == 0,
    {
        Balances { accounts: HashMap::new() }
    }

    /// Sets principal `p`'s balance to `value`, leaving every other balance
    /// unchanged.
    pub fn set_balance(&mut self, p: u64, value: u64)
        ensures
            final(self)@ == old(self)@.insert(p, value),
            final(self).balance_of(p) == value,
            forall|q: u64| q != p ==> final(self).balance_of(q) == old(self).balance_of(q),
    {
        self.accounts.insert(p, value);
    }

    /// Reads principal `p`'s balance.
    pub fn balance(&self, p: u64) -> (value: u64)
        ensures
            value == self.balance_of(p),
    {
        match self.accounts.get(&p) {
            Some(b) => *b,
            None => 0,
        }
    }

    /// Atomically debits `amount` from `from` and credits it to `to`.
    /// Fails with `InsufficientFunds` if `from` cannot cover the amount and
    /// with `Overflow` if crediting would wrap `to`'s balance; on any
    /// failure no balance changes. A transfer from a principal to itself
    /// that it can cover succeeds and changes nothing.
    pub fn transfer(&mut self, from: u64, to: u64, amount: u64) -> (result: Result<
        (),
        DepositError,
    >)
        ensures
            match result {
                Ok(()) => {
                    &&& old(self).balance_of(from) >= amount
                    &&& if from == to {
                        forall|p: u64| final(self).balance_of(p) == old(self).balance_of(p)
                    } else {
                        &&& old(self).balance_of(to) + amount <= u64::MAX
                        &&& final(self).balance_of(from) == old(self).balance_of(from) - amount
                        &&& final(self).balance_of(to) == old(self).balance_of(to) + amount
                        &&& forall|p: u64|
                            p != from && p != to ==> final(self).balance_of(p) == old(
                                self,
                            ).balance_of(p)
                    }
                },
                Err(DepositError::InsufficientFunds) => {
                    &&& old(self).balance_of(from) < amount
                    &&& final(self)@ == old(self)@
                },
                Err(DepositError::Overflow) => {
                    &&& old(self).balance_of(from) >= amount
                    &&& from != to
                    &&& old(self).balance_of(to) + amount > u64::MAX
                    &&& final(self)@ == old(self)@
                },
                Err(_) => false,
            },
    {
        let from_balance = self.balance(from);
        if from_balance < amount {
            return Err(DepositError::InsufficientFunds);
        }
        if from == to {
            return Ok(());
        }
        let to_balance = self.balance(to);
        if to_balance > u64::MAX - amount {
            return Err(DepositError::Overflow);
        }
        self.accounts.insert(from, from_balance - amount);
        self.accounts.insert(to, to_balance + amount);
        Ok(())
    }
}

} // verus!
