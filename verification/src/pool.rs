use vstd::prelude::*;

use crate::errors::Errors;
use crate::AccountId;

verus! {

/// Basis-point denominator: 10_000 bps = 100%.
pub const BPS_DENOMINATOR: u64 = 10_000;

/// Singleton record of the pool's global accounting and configuration.
/// All monetary amounts are unsigned integers in the stable token's base
/// units; all rates are basis points; timestamps are seconds since epoch.
pub struct LendingPool {
    /// Administrative root; immutable after initialization.
    pub owner: AccountId,
    /// Stable tokens deposited by lenders, net of withdrawals.
    pub total_deposited_usdc: u64,
    /// Stable tokens drawn by borrowers and not yet repaid.
    pub total_borrowed: u64,
    /// Pool shares issued to lenders.
    pub lp_total_supply: u64,
    /// Minimum seconds between a deposit and a penalty-free withdrawal.
    pub withdrawal_epoch: i64,
    /// Maximum draw as a fraction of collateral value, in bps.
    pub loan_to_value_bps: u16,
    /// Health-factor numerator parameter, in bps.
    pub liquidation_threshold_bps: u16,
    /// Penalty taken from the borrower on liquidation, in bps of principal.
    pub liquidation_penalty_bps: u16,
    /// Fraction of the penalty paid to the liquidator, in bps.
    pub liquidator_reward_bps: u16,
    /// Tiered utilization curve: strictly increasing thresholds, in bps.
    pub utilization_rate_tier_1_bps: u16,
    pub utilization_rate_tier_2_bps: u16,
    pub utilization_rate_tier_3_bps: u16,
    pub utilization_rate_tier_4_bps: u16,
    pub utilization_rate_tier_5_bps: u16,
    /// APR applied within each utilization tier, in bps.
    pub apr_tier_1_bps: u16,
    pub apr_tier_2_bps: u16,
    pub apr_tier_3_bps: u16,
    pub apr_tier_4_bps: u16,
    pub apr_tier_5_bps: u16,
    /// Fee withheld when a lender withdraws before the epoch elapses, in bps.
    pub early_withdrawal_fee_bps: u16,
    /// One-shot fee added to a loan at draw-down, in bps of principal.
    pub origination_fee_bps: u16,
    /// Global kill-switch: while set, deposits, withdrawals and the borrow
    /// pipeline are gated; repayment and liquidation stay available.
    pub is_locked: bool,
}

/// Shares minted for a deposit: the first deposit mints one share per token;
/// later deposits mint pro rata against the pool's current book value,
/// truncating.
pub open spec fn spec_shares_to_mint(amount: u64, lp_supply: u64, total_deposited: u64) -> int {
    if lp_supply == 0 {
        amount as int
    } else {
        amount as int * lp_supply as int / total_deposited as int
    }
}

/// Pool utilization in bps: borrowed over deposited, 0 when nothing is
/// deposited.
pub open spec fn spec_utilization_bps(total_borrowed: u64, total_deposited: u64) -> int {
    if total_deposited == 0 {
        0
    } else {
        total_borrowed as int * BPS_DENOMINATOR as int / total_deposited as int
    }
}

/// Origination fee for a draw of `amount`, truncating.
pub open spec fn spec_origination_fee(amount: u64, fee_bps: u16) -> int {
    amount as int * fee_bps as int / BPS_DENOMINATOR as int
}

/// The origination fee fits the 64-bit ledger.
pub open spec fn spec_origination_fee_fits(amount: u64, fee_bps: u16) -> bool {
    spec_origination_fee(amount, fee_bps) <= u64::MAX as int
}

impl LendingPool {
    /// Configuration well-formedness: tier thresholds strictly increase, the
    /// liquidation threshold sits above the loan-to-value bound, and the
    /// reward and early-withdrawal fractions are genuine fractions.
    pub open spec fn config_wf(self) -> bool {
        &&& self.utilization_rate_tier_1_bps < self.utilization_rate_tier_2_bps
        &&& self.utilization_rate_tier_2_bps < self.utilization_rate_tier_3_bps
        &&& self.utilization_rate_tier_3_bps < self.utilization_rate_tier_4_bps
        &&& self.utilization_rate_tier_4_bps < self.utilization_rate_tier_5_bps
        &&& self.liquidation_threshold_bps > self.loan_to_value_bps
        &&& self.liquidator_reward_bps <= BPS_DENOMINATOR
        &&& self.early_withdrawal_fee_bps <= BPS_DENOMINATOR
    }

    /// Lenders' capital covers every outstanding draw.
    pub open spec fn no_overdraw(self) -> bool {
        self.total_borrowed <= self.total_deposited_usdc
    }

    /// Shares exist exactly when deposits do.
    pub open spec fn supply_deposits_aligned(self) -> bool {
        (self.lp_total_supply == 0) <==> (self.total_deposited_usdc == 0)
    }

    /// The APR the tiered curve selects for a utilization of `util_bps`.
    /// Tiers are lower-inclusive and upper-exclusive; the curve is extended
    /// left of the first threshold with the first tier's APR, and the last
    /// tier has no upper bound.
    pub open spec fn spec_tier_apr(self, util_bps: int) -> u16 {
        if util_bps < self.utilization_rate_tier_2_bps {
            self.apr_tier_1_bps
        } else if util_bps < self.utilization_rate_tier_3_bps {
            self.apr_tier_2_bps
        } else if util_bps < self.utilization_rate_tier_4_bps {
            self.apr_tier_3_bps
        } else if util_bps < self.utilization_rate_tier_5_bps {
            self.apr_tier_4_bps
        } else {
            self.apr_tier_5_bps
        }
    }

    /// Creates the pool record: stores all tier and fee parameters, zeroes
    /// the accounting totals and leaves the pool unlocked. The owner is the
    /// only identity that may later lock, unlock or rotate admins.
    pub fn initialize_pool(
        owner: AccountId,
        loan_to_value_bps: u16,
        utilization_rate_tier_1_bps: u16,
        utilization_rate_tier_2_bps: u16,
        utilization_rate_tier_3_bps: u16,
        utilization_rate_tier_4_bps: u16,
        utilization_rate_tier_5_bps: u16,
        apr_tier_1_bps: u16,
        apr_tier_2_bps: u16,
        apr_tier_3_bps: u16,
        apr_tier_4_bps: u16,
        apr_tier_5_bps: u16,
        early_withdrawal_fee_bps: u16,
        origination_fee_bps: u16,
        withdrawal_epoch: i64,
        liquidation_threshold_bps: u16,
        liquidation_penalty_bps: u16,
        liquidator_reward_bps: u16,
    ) -> (r: LendingPool)
        requires
            utilization_rate_tier_1_bps < utilization_rate_tier_2_bps,
            utilization_rate_tier_2_bps < utilization_rate_tier_3_bps,
            utilization_rate_tier_3_bps < utilization_rate_tier_4_bps,
            utilization_rate_tier_4_bps < utilization_rate_tier_5_bps,
            liquidation_threshold_bps > loan_to_value_bps,
            liquidator_reward_bps <= BPS_DENOMINATOR,
            early_withdrawal_fee_bps <= BPS_DENOMINATOR,
        ensures
            (r == LendingPool {
                owner,
                total_deposited_usdc: 0u64,
                total_borrowed: 0u64,
                lp_total_supply: 0u64,
                withdrawal_epoch,
                loan_to_value_bps,
                liquidation_threshold_bps,
                liquidation_penalty_bps,
                liquidator_reward_bps,
                utilization_rate_tier_1_bps,
                utilization_rate_tier_2_bps,
                utilization_rate_tier_3_bps,
                utilization_rate_tier_4_bps,
                utilization_rate_tier_5_bps,
                apr_tier_1_bps,
                apr_tier_2_bps,
                apr_tier_3_bps,
                apr_tier_4_bps,
                apr_tier_5_bps,
                early_withdrawal_fee_bps,
                origination_fee_bps,
                is_locked: false,
            }),
            r.config_wf(),
            r.no_overdraw(),
            r.supply_deposits_aligned(),
    {
        LendingPool {
            owner,
            total_deposited_usdc: 0,
            total_borrowed: 0,
            lp_total_supply: 0,
            withdrawal_epoch,
            loan_to_value_bps,
            liquidation_threshold_bps,
            liquidation_penalty_bps,
            liquidator_reward_bps,
            utilization_rate_tier_1_bps,
            utilization_rate_tier_2_bps,
            utilization_rate_tier_3_bps,
            utilization_rate_tier_4_bps,
            utilization_rate_tier_5_bps,
            apr_tier_1_bps,
            apr_tier_2_bps,
            apr_tier_3_bps,
            apr_tier_4_bps,
            apr_tier_5_bps,
            early_withdrawal_fee_bps,
            origination_fee_bps,
            is_locked: false,
        }
    }

    /// Owner-only kill-switch: `unlocked -> locked`. A second lock fails.
    pub fn lock_pool(&mut self, caller: AccountId) -> (r: Result<(), Errors>)
        ensures
            caller != old(self).owner ==> r == Err::<(), Errors>(Errors::OnlyAuthority),
            caller == old(self).owner && old(self).is_locked ==> r == Err::<(), Errors>(
                Errors::PoolAlreadyLocked,
            ),
            r is Err ==> *final(self) == *old(self),
            r is Ok <==> caller == old(self).owner && !old(self).is_locked,
            r is Ok ==> *final(self) == (LendingPool { is_locked: true, ..*old(self) }),
    {
        if caller != self.owner {
            return Err(Errors::OnlyAuthority);
        }
        if self.is_locked {
            return Err(Errors::PoolAlreadyLocked);
        }
        self.is_locked = true;
        Ok(())
    }

    /// Owner-only: `locked -> unlocked`. A second unlock fails.
    pub fn unlock_pool(&mut self, caller: AccountId) -> (r: Result<(), Errors>)
        ensures
            caller != old(self).owner ==> r == Err::<(), Errors>(Errors::OnlyAuthority),
            caller == old(self).owner && !old(self).is_locked ==> r == Err::<(), Errors>(
                Errors::PoolAlreadyUnLocked,
            ),
            r is Err ==> *final(self) == *old(self),
            r is Ok <==> caller == old(self).owner && old(self).is_locked,
            r is Ok ==> *final(self) == (LendingPool { is_locked: false, ..*old(self) }),
    {
        if caller != self.owner {
            return Err(Errors::OnlyAuthority);
        }
        if !self.is_locked {
            return Err(Errors::PoolAlreadyUnLocked);
        }
        self.is_locked = false;
        Ok(())
    }

    /// Current utilization in bps: `total_borrowed * 10_000 /
    /// total_deposited`, 0 on an empty pool. Never exceeds 10_000 bps while
    /// deposits cover draws.
    pub fn get_current_utilization_rate(&self) -> (r: u64)
        requires
            self.no_overdraw(),
        ensures
            r == spec_utilization_bps(self.total_borrowed, self.total_deposited_usdc),
            r <= BPS_DENOMINATOR,
    {
        if self.total_deposited_usdc == 0 {
            return 0;
        }
        proof {
            vstd::arithmetic::mul::lemma_mul_upper_bound(
                self.total_borrowed as int,
                u64::MAX as int,
                BPS_DENOMINATOR as int,
                BPS_DENOMINATOR as int,
            );
        }
        let scaled: u128 = (self.total_borrowed as u128) * (BPS_DENOMINATOR as u128);
        let rate: u128 = scaled / (self.total_deposited_usdc as u128);
        proof {
            let b = self.total_borrowed as int;
            let d = self.total_deposited_usdc as int;
            vstd::arithmetic::div_mod::lemma_div_is_ordered(
                b * BPS_DENOMINATOR,
                d * BPS_DENOMINATOR,
                d,
            );
            vstd::arithmetic::div_mod::lemma_div_multiples_vanish(BPS_DENOMINATOR as int, d);
            assert(b * BPS_DENOMINATOR <= d * BPS_DENOMINATOR) by (nonlinear_arith)
                requires
                    b <= d,
            ;
        }
        rate as u64
    }

    /// APR snapshot for the pool's current utilization, selected by the
    /// tiered curve.
    pub fn calculate_borrow_rate_tier(&self) -> (r: u16)
        requires
            self.no_overdraw(),
        ensures
            r == self.spec_tier_apr(
                spec_utilization_bps(self.total_borrowed, self.total_deposited_usdc),
            ),
    {
        let util = self.get_current_utilization_rate();
        if util < self.utilization_rate_tier_2_bps as u64 {
            self.apr_tier_1_bps
        } else if util < self.utilization_rate_tier_3_bps as u64 {
            self.apr_tier_2_bps
        } else if util < self.utilization_rate_tier_4_bps as u64 {
            self.apr_tier_3_bps
        } else if util < self.utilization_rate_tier_5_bps as u64 {
            self.apr_tier_4_bps
        } else {
            self.apr_tier_5_bps
        }
    }

    /// One-shot fee for drawing `amount`: `amount * origination_fee_bps /
    /// 10_000`, truncating; fails only when the result does not fit `u64`.
    pub fn calculate_origination_fee(&self, amount: u64) -> (r: Result<u64, Errors>)
        ensures
            r matches Ok(fee) ==> fee == spec_origination_fee(amount, self.origination_fee_bps),
            r is Err <==> spec_origination_fee(amount, self.origination_fee_bps) > u64::MAX,
            r is Err ==> r == Err::<u64, Errors>(Errors::Overflow),
    {
        proof {
            vstd::arithmetic::mul::lemma_mul_upper_bound(
                amount as int,
                u64::MAX as int,
                self.origination_fee_bps as int,
                u16::MAX as int,
            );
        }
        let scaled: u128 = (amount as u128) * (self.origination_fee_bps as u128);
        let fee: u128 = scaled / (BPS_DENOMINATOR as u128);
        if fee > u64::MAX as u128 {
            Err(Errors::Overflow)
        } else {
            Ok(fee as u64)
        }
    }
}

} // verus!
