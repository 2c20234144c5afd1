use vstd::prelude::*;

use crate::errors::Errors;
use crate::loan::{spec_is_terminal, spec_stage_step_allowed, LoanStage, LoanState};
use crate::pool::{LendingPool, BPS_DENOMINATOR};
use crate::repayment::{
    calculate_interest_accrued, spec_base_debt, spec_interest_accrued, spec_interest_fits,
};

verus! {

/// What a successful liquidation commits. The host reassigns the collateral
/// to the seize vault and pays `reward_to_liquidator` from the treasury to
/// the caller.
#[derive(Clone, Copy, Debug, PartialEq, Eq, Structural)]
pub struct LiquidationOutcome {
    /// Penalty assessed against the borrower, in stable tokens.
    pub penalty: u64,
    /// Fraction of the penalty paid out to the liquidator; drawn against
    /// depositor capital until the seized asset is disposed of.
    pub reward_to_liquidator: u64,
    /// Interest newly booked by this call.
    pub interest_delta: u64,
}

/// Liquidation penalty: `principal * liquidation_penalty_bps / 10_000`,
/// truncating.
pub open spec fn spec_liquidation_penalty(principal: u64, penalty_bps: u16) -> int {
    principal as int * penalty_bps as int / BPS_DENOMINATOR as int
}

/// Liquidator reward: `penalty * liquidator_reward_bps / 10_000`,
/// truncating.
pub open spec fn spec_liquidator_reward(penalty: u64, reward_bps: u16) -> int {
    penalty as int * reward_bps as int / BPS_DENOMINATOR as int
}

/// Integer-truncated health factor:
/// `liquidation_threshold_bps * collateral / (debt * 10_000)`, with the
/// `u64::MAX` sentinel standing in for infinity on a debt-free loan.
pub open spec fn spec_health_factor(threshold_bps: u16, collateral: u64, debt: u64) -> int {
    if debt == 0 {
        u64::MAX as int
    } else {
        threshold_bps as int * collateral as int / (debt as int * BPS_DENOMINATOR as int)
    }
}

/// Under-collateralization, stated as the direct cross-multiplied
/// inequality rather than through the truncated quotient:
/// `threshold * collateral < debt * 10_000` (never true of a zero debt).
pub open spec fn spec_under_collateralized(threshold_bps: u16, collateral: u64, debt: int) -> bool {
    debt != 0 && (threshold_bps as int * collateral as int) < debt * BPS_DENOMINATOR as int
}

/// The truncated health factor sits below one exactly when the direct
/// inequality reports under-collateralization.
pub proof fn lemma_health_factor_below_one(threshold_bps: u16, collateral: u64, debt: u64)
    ensures
        (spec_health_factor(threshold_bps, collateral, debt) < 1) == spec_under_collateralized(
            threshold_bps,
            collateral,
            debt as int,
        ),
{
    if debt != 0 {
        let n = threshold_bps as int * collateral as int;
        let d = debt as int * BPS_DENOMINATOR as int;
        vstd::arithmetic::mul::lemma_mul_nonnegative(threshold_bps as int, collateral as int);
        vstd::arithmetic::mul::lemma_mul_strictly_positive(debt as int, BPS_DENOMINATOR as int);
        if n < d {
            vstd::arithmetic::div_mod::lemma_basic_div(n, d);
        } else {
            vstd::arithmetic::div_mod::lemma_div_is_ordered(d, n, d);
            vstd::arithmetic::div_mod::lemma_div_by_self(d);
        }
    }
}

/// The liquidation transition: an active loan whose debt (with freshly
/// accrued interest) leaves it under-collateralized is seized. The newly
/// accrued interest is booked, the collateral moves to the seize vault, and
/// the liquidator's reward is paid out of depositor capital.
pub open spec fn spec_liquidate(pool: LendingPool, loan: LoanState, now: i64) -> Result<
    (LendingPool, LoanState, LiquidationOutcome),
    Errors,
> {
    if loan.stage != LoanStage::Active {
        Err(Errors::CannotLiquidate)
    } else if spec_liquidation_penalty(loan.principal_borrowed, pool.liquidation_penalty_bps)
        > u64::MAX as int {
        Err(Errors::Overflow)
    } else if !spec_interest_fits(
        loan.principal_borrowed,
        loan.borrow_apr_bps,
        loan.last_interest_accrued,
        now,
    ) {
        Err(Errors::Overflow)
    } else if spec_base_debt(loan, now) > u64::MAX as int {
        Err(Errors::Overflow)
    } else if !spec_under_collateralized(
        pool.liquidation_threshold_bps,
        loan.collateral_value_usd,
        spec_base_debt(loan, now),
    ) {
        Err(Errors::CannotLiquidate)
    } else {
        let penalty = spec_liquidation_penalty(
            loan.principal_borrowed,
            pool.liquidation_penalty_bps,
        );
        let reward = spec_liquidator_reward(penalty as u64, pool.liquidator_reward_bps);
        let interest = spec_interest_accrued(
            loan.principal_borrowed,
            loan.borrow_apr_bps,
            loan.last_interest_accrued,
            now,
        );
        if reward > u64::MAX as int {
            Err(Errors::Overflow)
        } else if reward > pool.total_deposited_usdc {
            Err(Errors::Overflow)
        } else {
            Ok(
                (
                    LendingPool {
                        total_deposited_usdc: (pool.total_deposited_usdc - reward) as u64,
                        ..pool
                    },
                    LoanState {
                        stage: LoanStage::Liquidated,
                        interest_accrued: (loan.interest_accrued + interest) as u64,
                        ..loan
                    },
                    LiquidationOutcome {
                        penalty: penalty as u64,
                        reward_to_liquidator: reward as u64,
                        interest_delta: interest as u64,
                    },
                ),
            )
        }
    }
}

/// Penalty assessed on this loan's principal under the pool's penalty rate.
/// Fails only when the result does not fit `u64`.
pub fn calculate_liquidation_penalty(pool: &LendingPool, loan: &LoanState) -> (r: Result<
    u64,
    Errors,
>)
    ensures
        r matches Ok(p) ==> p == spec_liquidation_penalty(
            loan.principal_borrowed,
            pool.liquidation_penalty_bps,
        ),
        r is Err <==> spec_liquidation_penalty(
            loan.principal_borrowed,
            pool.liquidation_penalty_bps,
        ) > u64::MAX as int,
        r is Err ==> r == Err::<u64, Errors>(Errors::Overflow),
{
    proof {
        vstd::arithmetic::mul::lemma_mul_upper_bound(
            loan.principal_borrowed as int,
            u64::MAX as int,
            pool.liquidation_penalty_bps as int,
            u16::MAX as int,
        );
    }
    let scaled: u128 = (loan.principal_borrowed as u128) * (pool.liquidation_penalty_bps as u128);
    let penalty: u128 = scaled / (BPS_DENOMINATOR as u128);
    if penalty > u64::MAX as u128 {
        return Err(Errors::Overflow);
    }
    Ok(penalty as u64)
}

/// Decides under-collateralization by the direct inequality
/// `threshold * collateral < debt * 10_000`, avoiding any dependence on the
/// truncation of the health factor itself.
pub fn is_under_collateralized(threshold_bps: u16, collateral: u64, debt: u64) -> (r: bool)
    ensures
        r == spec_under_collateralized(threshold_bps, collateral, debt as int),
{
    if debt == 0 {
        return false;
    }
    proof {
        vstd::arithmetic::mul::lemma_mul_upper_bound(
            threshold_bps as int,
            u16::MAX as int,
            collateral as int,
            u64::MAX as int,
        );
        vstd::arithmetic::mul::lemma_mul_upper_bound(
            debt as int,
            u64::MAX as int,
            BPS_DENOMINATOR as int,
            BPS_DENOMINATOR as int,
        );
    }
    let lhs: u128 = (threshold_bps as u128) * (collateral as u128);
    let rhs: u128 = (debt as u128) * (BPS_DENOMINATOR as u128);
    lhs < rhs
}

/// Truncated health factor for a given total debt; `u64::MAX` stands in for
/// infinity on a zero debt. Fails only when the quotient does not fit `u64`.
pub fn calculate_health_factor(pool: &LendingPool, loan: &LoanState, total_debt: u64) -> (r: Result<
    u64,
    Errors,
>)
    ensures
        r matches Ok(h) ==> h == spec_health_factor(
            pool.liquidation_threshold_bps,
            loan.collateral_value_usd,
            total_debt,
        ),
        r is Err <==> spec_health_factor(
            pool.liquidation_threshold_bps,
            loan.collateral_value_usd,
            total_debt,
        ) > u64::MAX as int,
        r is Err ==> r == Err::<u64, Errors>(Errors::Overflow),
{
    if total_debt == 0 {
        return Ok(u64::MAX);
    }
    proof {
        vstd::arithmetic::mul::lemma_mul_upper_bound(
            pool.liquidation_threshold_bps as int,
            u16::MAX as int,
            loan.collateral_value_usd as int,
            u64::MAX as int,
        );
        vstd::arithmetic::mul::lemma_mul_upper_bound(
            total_debt as int,
            u64::MAX as int,
            BPS_DENOMINATOR as int,
            BPS_DENOMINATOR as int,
        );
        vstd::arithmetic::mul::lemma_mul_strictly_positive(total_debt as int, BPS_DENOMINATOR as int);
    }
    let numerator: u128 = (pool.liquidation_threshold_bps as u128) * (loan.collateral_value_usd
        as u128);
    let denominator: u128 = (total_debt as u128) * (BPS_DENOMINATOR as u128);
    let health: u128 = numerator / denominator;
    if health > u64::MAX as u128 {
        return Err(Errors::Overflow);
    }
    Ok(health as u64)
}

/// Health factor of the loan's debt as it stands at `now` (with unbooked
/// interest included, but before any penalty).
pub fn get_current_health_factor(pool: &LendingPool, loan: &LoanState, now: i64) -> (r: Result<
    u64,
    Errors,
>)
    requires
        loan.last_interest_accrued <= now,
    ensures
        r matches Ok(h) ==> spec_base_debt(*loan, now) <= u64::MAX as int && h
            == spec_health_factor(
            pool.liquidation_threshold_bps,
            loan.collateral_value_usd,
            spec_base_debt(*loan, now) as u64,
        ),
        r is Err ==> r == Err::<u64, Errors>(Errors::Overflow),
        r is Ok <==> spec_interest_fits(
            loan.principal_borrowed,
            loan.borrow_apr_bps,
            loan.last_interest_accrued,
            now,
        ) && spec_base_debt(*loan, now) <= u64::MAX as int && spec_health_factor(
            pool.liquidation_threshold_bps,
            loan.collateral_value_usd,
            spec_base_debt(*loan, now) as u64,
        ) <= u64::MAX as int,
{
    let interest = match calculate_interest_accrued(
        loan.principal_borrowed,
        loan.borrow_apr_bps,
        loan.last_interest_accrued,
        now,
    ) {
        Ok(i) => i,
        Err(e) => {
            return Err(e);
        },
    };
    let with_interest = match loan.interest_accrued.checked_add(interest) {
        Some(v) => v,
        None => {
            return Err(Errors::Overflow);
        },
    };
    let with_principal = match with_interest.checked_add(loan.principal_borrowed) {
        Some(v) => v,
        None => {
            return Err(Errors::Overflow);
        },
    };
    let base = match with_principal.checked_add(loan.origination_fee) {
        Some(v) => v,
        None => {
            return Err(Errors::Overflow);
        },
    };
    calculate_health_factor(pool, loan, base)
}

/// Seizes an under-collateralized active loan: books the fresh interest,
/// marks the loan liquidated, and pays the liquidator's reward out of
/// depositor capital. Callable by any identity; a failed call commits
/// nothing.
pub fn liquidate(pool: &mut LendingPool, loan: &mut LoanState, now: i64) -> (r: Result<
    LiquidationOutcome,
    Errors,
>)
    requires
        old(loan).stage == LoanStage::Active ==> old(loan).last_interest_accrued <= now,
    ensures
        spec_liquidate(*old(pool), *old(loan), now) matches Ok(t) ==> r == Ok::<
            LiquidationOutcome,
            Errors,
        >(t.2) && *final(pool) == t.0 && *final(loan) == t.1,
        spec_liquidate(*old(pool), *old(loan), now) matches Err(e) ==> r == Err::<
            LiquidationOutcome,
            Errors,
        >(e) && *final(pool) == *old(pool) && *final(loan) == *old(loan),
        r matches Ok(out) && old(pool).no_overdraw() && out.reward_to_liquidator <= old(
            pool,
        ).total_deposited_usdc - old(pool).total_borrowed ==> final(pool).no_overdraw(),
        r matches Ok(out) && old(pool).supply_deposits_aligned() && out.reward_to_liquidator < old(
            pool,
        ).total_deposited_usdc ==> final(pool).supply_deposits_aligned(),
        old(pool).lp_total_supply == 0 && old(pool).supply_deposits_aligned() ==> final(
            pool
        ).supply_deposits_aligned(),
        final(pool).total_borrowed == old(pool).total_borrowed,
        final(pool).lp_total_supply == old(pool).lp_total_supply,
        final(pool).is_locked == old(pool).is_locked,
        spec_is_terminal(old(loan).stage) ==> r is Err,
        r is Ok ==> spec_stage_step_allowed(old(loan).stage, final(loan).stage),
        r is Ok ==> final(loan).stage == LoanStage::Liquidated,
{
    if !matches!(loan.stage, LoanStage::Active) {
        return Err(Errors::CannotLiquidate);
    }
    let penalty = match calculate_liquidation_penalty(pool, loan) {
        Ok(p) => p,
        Err(e) => {
            return Err(e);
        },
    };
    let interest = match calculate_interest_accrued(
        loan.principal_borrowed,
        loan.borrow_apr_bps,
        loan.last_interest_accrued,
        now,
    ) {
        Ok(i) => i,
        Err(e) => {
            return Err(e);
        },
    };
    let with_interest = match loan.interest_accrued.checked_add(interest) {
        Some(v) => v,
        None => {
            return Err(Errors::Overflow);
        },
    };
    let with_principal = match with_interest.checked_add(loan.principal_borrowed) {
        Some(v) => v,
        None => {
            return Err(Errors::Overflow);
        },
    };
    let base = match with_principal.checked_add(loan.origination_fee) {
        Some(v) => v,
        None => {
            return Err(Errors::Overflow);
        },
    };
    if !is_under_collateralized(
        pool.liquidation_threshold_bps,
        loan.collateral_value_usd,
        base,
    ) {
        return Err(Errors::CannotLiquidate);
    }
    proof {
        vstd::arithmetic::mul::lemma_mul_upper_bound(
            penalty as int,
            u64::MAX as int,
            pool.liquidator_reward_bps as int,
            u16::MAX as int,
        );
    }
    let reward_scaled: u128 = (penalty as u128) * (pool.liquidator_reward_bps as u128);
    let reward_wide: u128 = reward_scaled / (BPS_DENOMINATOR as u128);
    if reward_wide > u64::MAX as u128 {
        return Err(Errors::Overflow);
    }
    let reward = reward_wide as u64;
    let new_deposited = match pool.total_deposited_usdc.checked_sub(reward) {
        Some(v) => v,
        None => {
            return Err(Errors::Overflow);
        },
    };
    pool.total_deposited_usdc = new_deposited;
    loan.interest_accrued = with_interest;
    loan.stage = LoanStage::Liquidated;
    Ok(LiquidationOutcome { penalty, reward_to_liquidator: reward, interest_delta: interest })
}

} // verus!
