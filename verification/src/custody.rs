//! The custody ledger: a single pooled account holding the running total of
//! all deposited value. The total starts at zero, is mutated only by
//! overflow-checked credits, and is monotonically non-decreasing — an
//! addition that would wrap is rejected and leaves the account unmodified.

use vstd::prelude::*;

use crate::errors::DepositError;

verus! {

/// The pooled store of deposited value.
pub struct CustodyAccount {
    /// The aggregate of all successfully credited deposits.
    pub total_deposits: u64,
}

impl CustodyAccount {
    /// Creates the custody account with a total of zero.
    pub fn initialize() -> (account: CustodyAccount)
        ensures
            account.total_deposits == 0,
    {
        CustodyAccount { total_deposits: 0 }
    }

    /// Adds `amount` to the running total with overflow-checked arithmetic.
    /// On overflow the account is left unmodified; the total never wraps
    /// and never decreases.
    pub fn credit(&mut self, amount: u64) -> (result: Result<(), DepositError>)
        ensures
            match result {
                Ok(()) => {
                    &&& old(self).total_deposits + amount <= u64::MAX
                    &&& final(self).total_deposits == old(self).total_deposits + amount
                },
                Err(e) => {
                    &&& e == DepositError::Overflow
                    &&& old(self).total_deposits + amount > u64::MAX
                    &&& final(self).total_deposits == old(self).total_deposits
                },
            },
            final(self).total_deposits >= old(self).total_deposits,
    {
        match self.total_deposits.checked_add(amount) {
            Some(sum) => {
                self.total_deposits = sum;
                Ok(())
            },
            None => Err(DepositError::Overflow),
        }
    }
}

/// Law: serialized credits lose no updates. If the custody total starts at
/// zero and each of the `totals.len() - 1` successive successful credits of
/// amount `a` raises the total by exactly `a` — as `credit` ensures at its
/// linearization point — then the final total is exactly the number of
/// credits times `a`.
pub proof fn lemma_serialized_credits_accumulate(totals: Seq<u64>, a: u64)
    requires
        totals.len() >= 1,
        totals[0] == 0,
        forall|i: int| 0 <= i < totals.len() - 1 ==> #[trigger] totals[i + 1] == totals[i] + a,
    ensures
        totals.last() == (totals.len() - 1) * a,
    decreases totals.len(),
{
    if totals.len() == 1 {
        assert(totals.last() == 0);
    } else {
        let prefix = totals.drop_last();
        assert forall|i: int| 0 <= i < prefix.len() - 1 implies #[trigger] prefix[i + 1]
            == prefix[i] + a by {
            assert(totals[i + 1] == totals[i] + a);
        }
        lemma_serialized_credits_accumulate(prefix, a);
        assert(totals[(totals.len() - 2) + 1] == totals[totals.len() - 2] + a);
        assert((totals.len() - 2) * a + a == (totals.len() - 1) * a) by (nonlinear_arith);
    }
}

} // verus!
