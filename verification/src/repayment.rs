use vstd::prelude::*;

use crate::errors::Errors;
use crate::liquidation::{spec_liquidation_penalty, spec_under_collateralized};
use crate::loan::{spec_is_terminal, spec_stage_step_allowed, LoanStage, LoanState};
use crate::pool::{LendingPool, BPS_DENOMINATOR};
use crate::AccountId;

verus! {

/// Seconds in the interest year.
pub const SECONDS_PER_YEAR: u64 = 31_536_000;

/// What a successful repayment settles. The host transfers
/// `amount_transferred` from the borrower to the treasury and returns the
/// collateral asset to the borrower.
#[derive(Clone, Copy, Debug, PartialEq, Eq, Structural)]
pub struct RepayOutcome {
    /// The full amount the borrower offered; all of it moves to the treasury.
    pub amount_transferred: u64,
    /// The debt that had to be covered.
    pub total_debt: u64,
    /// Interest newly booked by this call.
    pub interest_delta: u64,
}

/// Simple (non-compounding) interest accrued between `last` and `now`:
/// `principal * apr_bps * (now - last) / (10_000 * SECONDS_PER_YEAR)`,
/// truncating.
pub open spec fn spec_interest_accrued(principal: u64, apr_bps: u16, last: i64, now: i64) -> int {
    principal as int * apr_bps as int * (now as int - last as int) / (
    BPS_DENOMINATOR as int * SECONDS_PER_YEAR as int)
}

/// The 128-bit intermediate of the interest product stays representable.
pub open spec fn spec_interest_mul_fits(principal: u64, apr_bps: u16, last: i64, now: i64) -> bool {
    principal as int * apr_bps as int * (now as int - last as int) <= u128::MAX as int
}

/// The interest figure is computable on the 64-bit ledger.
pub open spec fn spec_interest_fits(principal: u64, apr_bps: u16, last: i64, now: i64) -> bool {
    &&& spec_interest_mul_fits(principal, apr_bps, last, now)
    &&& spec_interest_accrued(principal, apr_bps, last, now) <= u64::MAX as int
}

/// Everything the borrower owes at `now` before any liquidation penalty:
/// principal, origination fee, interest already booked, and interest newly
/// accrued since the last booking.
pub open spec fn spec_base_debt(loan: LoanState, now: i64) -> int {
    loan.principal_borrowed + loan.origination_fee + loan.interest_accrued
        + spec_interest_accrued(
        loan.principal_borrowed,
        loan.borrow_apr_bps,
        loan.last_interest_accrued,
        now,
    )
}

/// Everything the borrower owes at `now`: the base debt, plus the
/// liquidation penalty when the loan is under-collateralized at that moment.
pub open spec fn spec_total_debt(pool: LendingPool, loan: LoanState, now: i64) -> int {
    let base = spec_base_debt(loan, now);
    if spec_under_collateralized(
        pool.liquidation_threshold_bps,
        loan.collateral_value_usd,
        base,
    ) {
        base + spec_liquidation_penalty(loan.principal_borrowed, pool.liquidation_penalty_bps)
    } else {
        base
    }
}

/// The repay transition: all-or-nothing settlement of the full debt. An
/// under-collateralized borrower may still self-rescue by also covering the
/// liquidation penalty in the same call. On success the principal is wiped,
/// the freshly accrued interest is booked, the collateral goes back to the
/// borrower and the pool's outstanding draw shrinks by the old principal.
pub open spec fn spec_repay(
    pool: LendingPool,
    loan: LoanState,
    caller: AccountId,
    amount_to_repay: u64,
    now: i64,
) -> Result<(LendingPool, LoanState, RepayOutcome), Errors> {
    if caller != loan.borrower {
        Err(Errors::InvalidUser)
    } else if loan.stage != LoanStage::Active {
        Err(Errors::CannotRepayLoan)
    } else if !spec_interest_fits(
        loan.principal_borrowed,
        loan.borrow_apr_bps,
        loan.last_interest_accrued,
        now,
    ) {
        Err(Errors::Overflow)
    } else if spec_base_debt(loan, now) > u64::MAX as int {
        Err(Errors::Overflow)
    } else {
        let interest = spec_interest_accrued(
            loan.principal_borrowed,
            loan.borrow_apr_bps,
            loan.last_interest_accrued,
            now,
        );
        let base = spec_base_debt(loan, now);
        let under = spec_under_collateralized(
            pool.liquidation_threshold_bps,
            loan.collateral_value_usd,
            base,
        );
        let penalty = spec_liquidation_penalty(
            loan.principal_borrowed,
            pool.liquidation_penalty_bps,
        );
        if under && (penalty > u64::MAX as int || base + penalty > u64::MAX as int) {
            Err(Errors::Overflow)
        } else {
            let total = spec_total_debt(pool, loan, now);
            if amount_to_repay < total {
                Err(Errors::RepayAmountNotEnough)
            } else {
                Ok(
                    (
                        LendingPool {
                            total_borrowed: (pool.total_borrowed - loan.principal_borrowed) as u64,
                            ..pool
                        },
                        LoanState {
                            stage: LoanStage::Repaid,
                            principal_borrowed: 0u64,
                            origination_fee: 0u64,
                            interest_accrued: (loan.interest_accrued + interest) as u64,
                            ..loan
                        },
                        RepayOutcome {
                            amount_transferred: amount_to_repay,
                            total_debt: total as u64,
                            interest_delta: interest as u64,
                        },
                    ),
                )
            }
        }
    }
}

/// Interest accrued between `last_interest_accrued` and `now` on `principal`
/// at the locked APR. Fails only when an intermediate or the result would
/// overflow.
pub fn calculate_interest_accrued(
    principal: u64,
    apr_bps: u16,
    last_interest_accrued: i64,
    now: i64,
) -> (r: Result<u64, Errors>)
    requires
        last_interest_accrued <= now,
    ensures
        r is Err <==> !spec_interest_fits(principal, apr_bps, last_interest_accrued, now),
        r is Err ==> r == Err::<u64, Errors>(Errors::Overflow),
        r matches Ok(i) ==> i == spec_interest_accrued(principal, apr_bps, last_interest_accrued, now),
{
    proof {
        vstd::arithmetic::mul::lemma_mul_upper_bound(
            principal as int,
            u64::MAX as int,
            apr_bps as int,
            u16::MAX as int,
        );
    }
    let rate_scaled: u128 = (principal as u128) * (apr_bps as u128);
    let dt: u128 = ((now as i128) - (last_interest_accrued as i128)) as u128;
    let numerator: u128 = match rate_scaled.checked_mul(dt) {
        Some(n) => n,
        None => {
            proof {
                vstd::arithmetic::mul::lemma_mul_is_associative(
                    principal as int,
                    apr_bps as int,
                    now as int - last_interest_accrued as int,
                );
            }
            return Err(Errors::Overflow);
        },
    };
    proof {
        vstd::arithmetic::mul::lemma_mul_is_associative(
            principal as int,
            apr_bps as int,
            now as int - last_interest_accrued as int,
        );
    }
    let denominator: u128 = (BPS_DENOMINATOR as u128) * (SECONDS_PER_YEAR as u128);
    let interest: u128 = numerator / denominator;
    if interest > u64::MAX as u128 {
        return Err(Errors::Overflow);
    }
    Ok(interest as u64)
}

/// The full debt a repayment must cover at `now`: base debt plus the
/// liquidation penalty when the loan is under water. Pure: booking the newly
/// accrued interest is left to `repay` and `liquidate`.
pub fn total_debt_to_repay(pool: &LendingPool, loan: &LoanState, now: i64) -> (r: Result<
    u64,
    Errors,
>)
    requires
        loan.last_interest_accrued <= now,
    ensures
        r matches Ok(d) ==> d == spec_total_debt(*pool, *loan, now),
        r is Err ==> r == Err::<u64, Errors>(Errors::Overflow),
        r is Ok <==> spec_interest_fits(
            loan.principal_borrowed,
            loan.borrow_apr_bps,
            loan.last_interest_accrued,
            now,
        ) && spec_base_debt(*loan, now) <= u64::MAX as int && spec_total_debt(*pool, *loan, now)
            <= u64::MAX as int && spec_liquidation_penalty_ok(*pool, *loan, now),
{
    let interest = match calculate_interest_accrued(
        loan.principal_borrowed,
        loan.borrow_apr_bps,
        loan.last_interest_accrued,
        now,
    ) {
        Ok(i) => i,
        Err(e) => {
            return Err(e);
        },
    };
    let with_interest = match loan.interest_accrued.checked_add(interest) {
        Some(v) => v,
        None => {
            return Err(Errors::Overflow);
        },
    };
    let with_principal = match with_interest.checked_add(loan.principal_borrowed) {
        Some(v) => v,
        None => {
            return Err(Errors::Overflow);
        },
    };
    let base = match with_principal.checked_add(loan.origination_fee) {
        Some(v) => v,
        None => {
            return Err(Errors::Overflow);
        },
    };
    if crate::liquidation::is_under_collateralized(
        pool.liquidation_threshold_bps,
        loan.collateral_value_usd,
        base,
    ) {
        let penalty = match crate::liquidation::calculate_liquidation_penalty(pool, loan) {
            Ok(p) => p,
            Err(e) => {
                return Err(e);
            },
        };
        match base.checked_add(penalty) {
            Some(total) => Ok(total),
            None => Err(Errors::Overflow),
        }
    } else {
        Ok(base)
    }
}

/// When the debt computation needs the penalty, the penalty and the sum must
/// be representable too.
pub open spec fn spec_liquidation_penalty_ok(pool: LendingPool, loan: LoanState, now: i64) -> bool {
    spec_under_collateralized(
        pool.liquidation_threshold_bps,
        loan.collateral_value_usd,
        spec_base_debt(loan, now),
    ) ==> spec_liquidation_penalty(loan.principal_borrowed, pool.liquidation_penalty_bps)
        <= u64::MAX as int && spec_total_debt(pool, loan, now) <= u64::MAX as int
}

/// Repays the loan in full (principal, origination fee, all interest, and
/// the penalty if the loan is under water at this moment) and returns the
/// collateral. Partial repayments are rejected; a failed call commits
/// nothing.
pub fn repay(
    pool: &mut LendingPool,
    loan: &mut LoanState,
    caller: AccountId,
    amount_to_repay: u64,
    now: i64,
) -> (r: Result<RepayOutcome, Errors>)
    requires
        old(loan).stage == LoanStage::Active ==> old(loan).last_interest_accrued <= now,
        old(loan).principal_borrowed <= old(pool).total_borrowed,
    ensures
        spec_repay(*old(pool), *old(loan), caller, amount_to_repay, now) matches Ok(t) ==> r
            == Ok::<RepayOutcome, Errors>(t.2) && *final(pool) == t.0 && *final(loan) == t.1,
        spec_repay(*old(pool), *old(loan), caller, amount_to_repay, now) matches Err(e) ==> r
            == Err::<RepayOutcome, Errors>(e) && *final(pool) == *old(pool) && *final(loan)
            == *old(loan),
        old(pool).no_overdraw() ==> final(pool).no_overdraw(),
        old(pool).supply_deposits_aligned() ==> final(pool).supply_deposits_aligned(),
        final(pool).total_deposited_usdc == old(pool).total_deposited_usdc,
        final(pool).lp_total_supply == old(pool).lp_total_supply,
        final(pool).is_locked == old(pool).is_locked,
        spec_is_terminal(old(loan).stage) ==> r is Err,
        r is Ok ==> spec_stage_step_allowed(old(loan).stage, final(loan).stage),
        r is Ok ==> final(loan).principal_borrowed == 0,
{
    if caller != loan.borrower {
        return Err(Errors::InvalidUser);
    }
    if !matches!(loan.stage, LoanStage::Active) {
        return Err(Errors::CannotRepayLoan);
    }
    let interest = match calculate_interest_accrued(
        loan.principal_borrowed,
        loan.borrow_apr_bps,
        loan.last_interest_accrued,
        now,
    ) {
        Ok(i) => i,
        Err(e) => {
            return Err(e);
        },
    };
    let with_interest = match loan.interest_accrued.checked_add(interest) {
        Some(v) => v,
        None => {
            return Err(Errors::Overflow);
        },
    };
    let with_principal = match with_interest.checked_add(loan.principal_borrowed) {
        Some(v) => v,
        None => {
            return Err(Errors::Overflow);
        },
    };
    let base = match with_principal.checked_add(loan.origination_fee) {
        Some(v) => v,
        None => {
            return Err(Errors::Overflow);
        },
    };
    let total_debt: u64 = if crate::liquidation::is_under_collateralized(
        pool.liquidation_threshold_bps,
        loan.collateral_value_usd,
        base,
    ) {
        let penalty = match crate::liquidation::calculate_liquidation_penalty(pool, loan) {
            Ok(p) => p,
            Err(e) => {
                return Err(e);
            },
        };
        match base.checked_add(penalty) {
            Some(total) => total,
            None => {
                return Err(Errors::Overflow);
            },
        }
    } else {
        base
    };
    if amount_to_repay < total_debt {
        return Err(Errors::RepayAmountNotEnough);
    }
    pool.total_borrowed = pool.total_borrowed - loan.principal_borrowed;
    loan.interest_accrued = with_interest;
    loan.principal_borrowed = 0;
    loan.origination_fee = 0;
    loan.stage = LoanStage::Repaid;
    Ok(
        RepayOutcome {
            amount_transferred: amount_to_repay,
            total_debt,
            interest_delta: interest,
        },
    )
}

} // verus!
