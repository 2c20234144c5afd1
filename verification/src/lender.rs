use vstd::prelude::*;

use crate::AccountId;

verus! {

/// Per-lender record. Created on the lender's first deposit; its share
/// balance is burned in full on withdrawal.
pub struct Lender {
    /// The lender; the only identity authorized to withdraw this position.
    pub owner: AccountId,
    /// Pool shares currently held.
    pub lp_shares: u64,
    /// Entry timestamp of the position: set when a deposit finds the position
    /// empty, and kept across later top-ups. The early-withdrawal fee is
    /// measured from this moment.
    pub deposited_at: i64,
    /// Cumulative stable tokens this lender has deposited.
    pub total_deposited: u64,
}

impl Lender {
    /// A fresh, empty position for `owner`.
    pub fn new(owner: AccountId) -> (r: Lender)
        ensures
            (r == Lender {
                owner,
                lp_shares: 0u64,
                deposited_at: 0i64,
                total_deposited: 0u64,
            }),
    {
        Lender { owner, lp_shares: 0, deposited_at: 0, total_deposited: 0 }
    }
}

} // verus!
