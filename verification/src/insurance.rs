//! Insurance fund bookkeeping for the off-chain side.

use vstd::prelude::*;

use crate::models::InsuranceFund;

verus! {

/// Tracks the engine's view of the insurance fund account.
pub struct InsuranceFundManager {
    /// The fund state as last observed.
    pub fund: InsuranceFund,
}

impl InsuranceFundManager {
    /// A manager over a fund with nothing observed yet.
    pub fn new() -> (r: Self)
        ensures
            r.fund == (InsuranceFund {
                balance: 0,
                total_contributions: 0,
                total_bad_debt_covered: 0,
                utilization_ratio: 0,
            }),
    {
        InsuranceFundManager {
            fund: InsuranceFund {
                balance: 0,
                total_contributions: 0,
                total_bad_debt_covered: 0,
                utilization_ratio: 0,
            },
        }
    }

    /// The fund balance as last observed.
    pub fn get_balance(&self) -> (r: u64)
        ensures
            r == self.fund.balance,
    {
        self.fund.balance
    }
}

} // verus!
