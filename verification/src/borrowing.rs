use vstd::prelude::*;

use crate::errors::Errors;
use crate::loan::{spec_is_terminal, spec_stage_step_allowed, LoanStage, LoanState};
use crate::oracle::{spec_quote_is_fresh, spec_quote_is_usable, PriceQuote, ORACLE_MAX_AGE};
use crate::pool::{
    spec_origination_fee, spec_origination_fee_fits, spec_utilization_bps, LendingPool,
};
use crate::registry::AdminRegistry;
use crate::valuation::{
    calculate_borrowable_value, calculate_value_of_the_asset, spec_borrowable_value,
    spec_collateral_mul_fits, spec_price_per_gram_scaled, spec_value_of_asset,
};
use crate::AccountId;

verus! {

/// What a successful draw-down commits: the principal handed to the
/// borrower, the fee added to the debt, and the snapshots taken at that
/// moment.
#[derive(Clone, Copy, Debug, PartialEq, Eq, Structural)]
pub struct BorrowOutcome {
    /// Stable tokens the host transfers from the treasury to the borrower.
    pub principal: u64,
    /// One-shot fee added to the debt (not transferred).
    pub origination_fee: u64,
    /// APR locked for the life of the loan.
    pub borrow_apr_bps: u16,
    /// Collateral valuation snapshot.
    pub collateral_value_usd: u64,
}

/// The send-for-verification transition: hands the asset to the verification
/// vault and opens a new verification round.
pub open spec fn spec_send_for_verification(
    pool: LendingPool,
    loan: LoanState,
    caller: AccountId,
) -> Result<LoanState, Errors> {
    if caller != loan.borrower {
        Err(Errors::InvalidUser)
    } else if loan.stage != LoanStage::Initial {
        Err(Errors::AssetAlreadySentForVerification)
    } else if pool.is_locked {
        Err(Errors::PoolLocked)
    } else if loan.verification_id == u32::MAX {
        Err(Errors::Overflow)
    } else {
        Ok(
            LoanState {
                verification_id: (loan.verification_id + 1) as u32,
                stage: LoanStage::InFlight,
                ..loan
            },
        )
    }
}

/// The admin verification transition: records the asset's weight and purity
/// and settles the open round as verified or rejected. The round is named by
/// its id; a round that is not open any more cannot be settled again.
pub open spec fn spec_verify_asset(
    registry: AdminRegistry,
    loan: LoanState,
    caller: AccountId,
    verification_id: u32,
    is_verified: bool,
    purity_in_bps: u16,
    weight_in_grams: u64,
) -> Result<LoanState, Errors> {
    if !registry.spec_is_admin(caller) {
        Err(Errors::OnlyAdmin)
    } else if loan.stage != LoanStage::InFlight || verification_id != loan.verification_id {
        Err(Errors::IncorrectVerificationId)
    } else {
        Ok(
            LoanState {
                stage: if is_verified {
                    LoanStage::Verified
                } else {
                    LoanStage::Rejected
                },
                purity_in_bps,
                weight_in_grams,
                ..loan
            },
        )
    }
}

/// The borrower-recall transition: a rejected asset goes back to its owner
/// and the position returns to its initial stage.
pub open spec fn spec_collect_collateral(loan: LoanState, caller: AccountId) -> Result<
    LoanState,
    Errors,
> {
    if caller != loan.borrower {
        Err(Errors::InvalidUser)
    } else if loan.stage != LoanStage::Rejected {
        Err(Errors::CannotCollectCollateral)
    } else {
        Ok(LoanState { stage: LoanStage::Initial, ..loan })
    }
}

/// The collateral lock-in transition: a verified asset moves from the
/// verification vault into the pool's collateral vault.
pub open spec fn spec_deposit_collateral(
    pool: LendingPool,
    loan: LoanState,
    caller: AccountId,
) -> Result<LoanState, Errors> {
    if caller != loan.borrower {
        Err(Errors::InvalidUser)
    } else if loan.stage != LoanStage::Verified {
        Err(Errors::AssetNotVerified)
    } else if pool.is_locked {
        Err(Errors::PoolLocked)
    } else {
        Ok(LoanState { stage: LoanStage::CollateralHeld, ..loan })
    }
}

/// The draw-down transition. The escrowed asset is priced from the quote;
/// the borrower draws the full borrowable value, which free liquidity must
/// cover; the APR is snapshotted from the tiered curve at the utilization
/// the draw itself produces, and interest accrual starts at `now`.
pub open spec fn spec_borrow(
    pool: LendingPool,
    loan: LoanState,
    caller: AccountId,
    quote: PriceQuote,
    now: i64,
) -> Result<(LendingPool, LoanState, BorrowOutcome), Errors> {
    if caller != loan.borrower {
        Err(Errors::InvalidUser)
    } else if pool.is_locked {
        Err(Errors::PoolLocked)
    } else if loan.stage != LoanStage::CollateralHeld {
        Err(Errors::AssetNotVerified)
    } else if !spec_quote_is_fresh(quote, now, ORACLE_MAX_AGE) {
        Err(Errors::StaleOracle)
    } else if !spec_quote_is_usable(quote) {
        Err(Errors::InvalidPrice)
    } else if !(spec_collateral_mul_fits(
        loan.weight_in_grams,
        spec_price_per_gram_scaled(quote.price),
        loan.purity_in_bps,
    ) && spec_value_of_asset(quote, loan.weight_in_grams, loan.purity_in_bps)
        <= u64::MAX as int) {
        Err(Errors::Overflow)
    } else {
        let value = spec_value_of_asset(quote, loan.weight_in_grams, loan.purity_in_bps);
        let borrowable = spec_borrowable_value(value as u64, pool.loan_to_value_bps);
        if borrowable > u64::MAX as int {
            Err(Errors::Overflow)
        } else if borrowable > pool.total_deposited_usdc - pool.total_borrowed {
            Err(Errors::InsufficientLiquidityToBorrow)
        } else if !spec_origination_fee_fits(borrowable as u64, pool.origination_fee_bps) {
            Err(Errors::Overflow)
        } else {
            let origination = spec_origination_fee(borrowable as u64, pool.origination_fee_bps);
            if loan.origination_fee + origination > u64::MAX {
                Err(Errors::Overflow)
            } else {
                let new_borrowed = (pool.total_borrowed + borrowable) as u64;
                let apr = pool.spec_tier_apr(
                    spec_utilization_bps(new_borrowed, pool.total_deposited_usdc),
                );
                Ok(
                    (
                        LendingPool { total_borrowed: new_borrowed, ..pool },
                        LoanState {
                            stage: LoanStage::Active,
                            principal_borrowed: borrowable as u64,
                            origination_fee: (loan.origination_fee + origination) as u64,
                            borrow_apr_bps: apr,
                            collateral_value_usd: value as u64,
                            last_interest_accrued: now,
                            ..loan
                        },
                        BorrowOutcome {
                            principal: borrowable as u64,
                            origination_fee: origination as u64,
                            borrow_apr_bps: apr,
                            collateral_value_usd: value as u64,
                        },
                    ),
                )
            }
        }
    }
}

/// Admin override of a loan's collateral valuation, for manual revaluation
/// between draws when the oracle is unavailable or disputed.
pub fn update_collateral_valuation(
    registry: &AdminRegistry,
    loan: &mut LoanState,
    caller: AccountId,
    amount: u64,
) -> (r: Result<(), Errors>)
    ensures
        r is Ok <==> registry.spec_is_admin(caller),
        r is Err ==> r == Err::<(), Errors>(Errors::OnlyAdmin) && *final(loan) == *old(loan),
        r is Ok ==> *final(loan) == (LoanState { collateral_value_usd: amount, ..*old(loan) }),
{
    if !registry.is_admin(caller) {
        return Err(Errors::OnlyAdmin);
    }
    loan.collateral_value_usd = amount;
    Ok(())
}

/// Sends the borrower's asset to the verification vault and opens a new
/// verification round. The host performs the asset reassignment.
pub fn deposit_for_verification(
    pool: &LendingPool,
    loan: &mut LoanState,
    caller: AccountId,
) -> (r: Result<(), Errors>)
    ensures
        spec_send_for_verification(*pool, *old(loan), caller) matches Ok(l) ==> r == Ok::<
            (),
            Errors,
        >(()) && *final(loan) == l,
        spec_send_for_verification(*pool, *old(loan), caller) matches Err(e) ==> r == Err::<
            (),
            Errors,
        >(e) && *final(loan) == *old(loan),
        spec_is_terminal(old(loan).stage) ==> r is Err,
        r is Ok ==> spec_stage_step_allowed(old(loan).stage, final(loan).stage),
{
    if caller != loan.borrower {
        return Err(Errors::InvalidUser);
    }
    if !matches!(loan.stage, LoanStage::Initial) {
        return Err(Errors::AssetAlreadySentForVerification);
    }
    if pool.is_locked {
        return Err(Errors::PoolLocked);
    }
    let next_id = match loan.verification_id.checked_add(1) {
        Some(v) => v,
        None => {
            return Err(Errors::Overflow);
        },
    };
    loan.verification_id = next_id;
    loan.stage = LoanStage::InFlight;
    Ok(())
}

/// Admin settlement of the open verification round: writes the measured
/// weight and purity and marks the asset verified or rejected.
pub fn verify_asset(
    registry: &AdminRegistry,
    loan: &mut LoanState,
    caller: AccountId,
    verification_id: u32,
    is_verified: bool,
    purity_in_bps: u16,
    weight_in_grams: u64,
) -> (r: Result<(), Errors>)
    ensures
        spec_verify_asset(
            *registry,
            *old(loan),
            caller,
            verification_id,
            is_verified,
            purity_in_bps,
            weight_in_grams,
        ) matches Ok(l) ==> r == Ok::<(), Errors>(()) && *final(loan) == l,
        spec_verify_asset(
            *registry,
            *old(loan),
            caller,
            verification_id,
            is_verified,
            purity_in_bps,
            weight_in_grams,
        ) matches Err(e) ==> r == Err::<(), Errors>(e) && *final(loan) == *old(loan),
        spec_is_terminal(old(loan).stage) ==> r is Err,
        r is Ok ==> spec_stage_step_allowed(old(loan).stage, final(loan).stage),
{
    if !registry.is_admin(caller) {
        return Err(Errors::OnlyAdmin);
    }
    if !matches!(loan.stage, LoanStage::InFlight) || verification_id != loan.verification_id {
        return Err(Errors::IncorrectVerificationId);
    }
    loan.weight_in_grams = weight_in_grams;
    loan.purity_in_bps = purity_in_bps;
    loan.stage = if is_verified {
        LoanStage::Verified
    } else {
        LoanStage::Rejected
    };
    Ok(())
}

/// Returns a rejected asset to the borrower. The host signs the reassignment
/// with the verification vault's authority.
pub fn collect_collateral(loan: &mut LoanState, caller: AccountId) -> (r: Result<(), Errors>)
    ensures
        spec_collect_collateral(*old(loan), caller) matches Ok(l) ==> r == Ok::<(), Errors>(())
            && *final(loan) == l,
        spec_collect_collateral(*old(loan), caller) matches Err(e) ==> r == Err::<(), Errors>(e)
            && *final(loan) == *old(loan),
        spec_is_terminal(old(loan).stage) ==> r is Err,
        r is Ok ==> spec_stage_step_allowed(old(loan).stage, final(loan).stage),
{
    if caller != loan.borrower {
        return Err(Errors::InvalidUser);
    }
    if !matches!(loan.stage, LoanStage::Rejected) {
        return Err(Errors::CannotCollectCollateral);
    }
    loan.stage = LoanStage::Initial;
    Ok(())
}

/// Escrows a verified asset into the pool's collateral vault, making it
/// available to borrow against.
pub fn deposit_collateral(pool: &LendingPool, loan: &mut LoanState, caller: AccountId) -> (r:
    Result<(), Errors>)
    ensures
        spec_deposit_collateral(*pool, *old(loan), caller) matches Ok(l) ==> r == Ok::<(), Errors>(
            (),
        ) && *final(loan) == l,
        spec_deposit_collateral(*pool, *old(loan), caller) matches Err(e) ==> r == Err::<
            (),
            Errors,
        >(e) && *final(loan) == *old(loan),
        spec_is_terminal(old(loan).stage) ==> r is Err,
        r is Ok ==> spec_stage_step_allowed(old(loan).stage, final(loan).stage),
{
    if caller != loan.borrower {
        return Err(Errors::InvalidUser);
    }
    if !matches!(loan.stage, LoanStage::Verified) {
        return Err(Errors::AssetNotVerified);
    }
    if pool.is_locked {
        return Err(Errors::PoolLocked);
    }
    loan.stage = LoanStage::CollateralHeld;
    Ok(())
}

/// Draws a loan against the escrowed asset: prices the collateral from the
/// quote, checks free liquidity, snapshots the APR and valuation, starts
/// interest accrual, and activates the loan. The host transfers the
/// principal from the treasury to the borrower.
pub fn borrow(
    pool: &mut LendingPool,
    loan: &mut LoanState,
    caller: AccountId,
    quote: &PriceQuote,
    now: i64,
) -> (r: Result<BorrowOutcome, Errors>)
    ensures
        spec_borrow(*old(pool), *old(loan), caller, *quote, now) matches Ok(t) ==> r == Ok::<
            BorrowOutcome,
            Errors,
        >(t.2) && *final(pool) == t.0 && *final(loan) == t.1,
        spec_borrow(*old(pool), *old(loan), caller, *quote, now) matches Err(e) ==> r == Err::<
            BorrowOutcome,
            Errors,
        >(e) && *final(pool) == *old(pool) && *final(loan) == *old(loan),
        r is Ok ==> final(pool).no_overdraw(),
        old(pool).no_overdraw() ==> final(pool).no_overdraw(),
        old(pool).supply_deposits_aligned() ==> final(pool).supply_deposits_aligned(),
        final(pool).total_deposited_usdc == old(pool).total_deposited_usdc,
        final(pool).lp_total_supply == old(pool).lp_total_supply,
        spec_is_terminal(old(loan).stage) ==> r is Err,
        r is Ok ==> spec_stage_step_allowed(old(loan).stage, final(loan).stage),
{
    if caller != loan.borrower {
        return Err(Errors::InvalidUser);
    }
    if pool.is_locked {
        return Err(Errors::PoolLocked);
    }
    if !matches!(loan.stage, LoanStage::CollateralHeld) {
        return Err(Errors::AssetNotVerified);
    }
    let value = match calculate_value_of_the_asset(
        quote,
        now,
        loan.weight_in_grams,
        loan.purity_in_bps,
    ) {
        Ok(v) => v,
        Err(e) => {
            return Err(e);
        },
    };
    let borrowable = match calculate_borrowable_value(value, pool.loan_to_value_bps) {
        Ok(b) => b,
        Err(e) => {
            return Err(e);
        },
    };
    let available = match pool.total_deposited_usdc.checked_sub(pool.total_borrowed) {
        Some(a) => a,
        None => {
            return Err(Errors::InsufficientLiquidityToBorrow);
        },
    };
    if borrowable > available {
        return Err(Errors::InsufficientLiquidityToBorrow);
    }
    let origination = match pool.calculate_origination_fee(borrowable) {
        Ok(f) => f,
        Err(e) => {
            return Err(e);
        },
    };
    let new_fee = match loan.origination_fee.checked_add(origination) {
        Some(f) => f,
        None => {
            return Err(Errors::Overflow);
        },
    };
    pool.total_borrowed = pool.total_borrowed + borrowable;
    let apr = pool.calculate_borrow_rate_tier();
    loan.stage = LoanStage::Active;
    loan.principal_borrowed = borrowable;
    loan.origination_fee = new_fee;
    loan.borrow_apr_bps = apr;
    loan.collateral_value_usd = value;
    loan.last_interest_accrued = now;
    Ok(
        BorrowOutcome {
            principal: borrowable,
            origination_fee: origination,
            borrow_apr_bps: apr,
            collateral_value_usd: value,
        },
    )
}

} // verus!
