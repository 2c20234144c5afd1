use vstd::prelude::*;

use crate::borrowing::{
    spec_borrow, spec_collect_collateral, spec_deposit_collateral, spec_send_for_verification,
    spec_verify_asset, BorrowOutcome,
};
use crate::errors::Errors;
use crate::lender::Lender;
use crate::lending::{spec_deposit, spec_withdraw, WithdrawOutcome};
use crate::liquidation::{spec_health_factor, spec_liquidate};
use crate::loan::{spec_asset_location, AssetLocation, LoanStage, LoanState};
use crate::oracle::PriceQuote;
use crate::pool::{LendingPool, BPS_DENOMINATOR};
use crate::registry::AdminRegistry;
use crate::repayment::{spec_base_debt, spec_repay};
use crate::AccountId;

verus! {

/// Truncating division is superadditive over a split numerator:
/// `a/d + b/d <= (a+b)/d` for non-negative `a`, `b`.
proof fn lemma_div_sum_le(a: int, b: int, d: int)
    requires
        a >= 0,
        b >= 0,
        d > 0,
    ensures
        a / d + b / d <= (a + b) / d,
{
    let qa = a / d;
    let ra = a % d;
    vstd::arithmetic::div_mod::lemma_fundamental_div_mod(a, d);
    vstd::arithmetic::div_mod::lemma_mod_division_less_than_divisor(a, d);
    vstd::arithmetic::div_mod::lemma_hoist_over_denominator(ra + b, qa, d as nat);
    vstd::arithmetic::div_mod::lemma_div_is_ordered(b, ra + b, d);
}

/// Lenders' capital always covers the outstanding draws. Deposits, draws
/// and repayments keep the invariant outright; a withdrawal keeps it
/// whenever the amount withdrawn fits in the pool's free liquidity, and a
/// liquidation keeps it whenever the liquidator's reward does. (The reward
/// is drawn against depositor capital while the outstanding draw stays
/// booked, so a reward larger than the free liquidity dents the invariant;
/// the conditional clauses name that bound exactly.)
pub proof fn lemma_no_overdraw_preserved(
    pool: LendingPool,
    lender: Lender,
    loan: LoanState,
    caller: AccountId,
    amount: u64,
    quote: PriceQuote,
    now: i64,
)
    requires
        pool.no_overdraw(),
    ensures
        spec_deposit(pool, lender, amount, now) matches Ok(t) ==> t.0.no_overdraw(),
        lender.lp_shares <= pool.lp_total_supply ==> (spec_withdraw(
            pool,
            lender,
            caller,
            now,
        ) matches Ok(t) ==> (t.2.total_withdrawable <= pool.total_deposited_usdc
            - pool.total_borrowed ==> t.0.no_overdraw())),
        spec_borrow(pool, loan, caller, quote, now) matches Ok(t) ==> t.0.no_overdraw(),
        loan.principal_borrowed <= pool.total_borrowed ==> (spec_repay(
            pool,
            loan,
            caller,
            amount,
            now,
        ) matches Ok(t) ==> t.0.no_overdraw()),
        spec_liquidate(pool, loan, now) matches Ok(t) ==> (t.2.reward_to_liquidator
            <= pool.total_deposited_usdc - pool.total_borrowed ==> t.0.no_overdraw()),
{
    if lender.lp_shares <= pool.lp_total_supply {
        crate::lending::lemma_withdrawable_bounds(
            lender.lp_shares,
            pool.total_deposited_usdc,
            pool.lp_total_supply,
        );
    }
}

/// A lender who deposits into an otherwise empty pool and withdraws again
/// at once gets at least the fee-discounted amount back:
/// `amount * (10_000 - early_withdrawal_fee_bps) / 10_000`.
pub proof fn lemma_deposit_then_withdraw_refunds_bulk(
    pool: LendingPool,
    lender: Lender,
    amount: u64,
    now: i64,
    later: i64,
)
    requires
        pool.lp_total_supply == 0,
        pool.total_deposited_usdc == 0,
        !pool.is_locked,
        pool.early_withdrawal_fee_bps <= BPS_DENOMINATOR,
        lender.lp_shares == 0,
        lender.total_deposited == 0,
        amount > 0,
    ensures
        spec_deposit(pool, lender, amount, now) matches Ok(d) && (spec_withdraw(
            d.0,
            d.1,
            lender.owner,
            later,
        ) matches Ok(w) && (w.2.amount_to_lender >= amount as int * (BPS_DENOMINATOR as int
            - pool.early_withdrawal_fee_bps as int) / BPS_DENOMINATOR as int)),
{
    let d = spec_deposit(pool, lender, amount, now);
    assert(d is Ok);
    let (p1, l1, shares) = d->Ok_0;
    assert(shares == amount);
    assert(p1.total_deposited_usdc == amount && p1.lp_total_supply == amount);
    assert(l1.lp_shares == amount);
    let a = amount as int;
    vstd::arithmetic::div_mod::lemma_div_multiples_vanish(a, a);
    let w = spec_withdraw(p1, l1, lender.owner, later);
    assert(w is Ok);
    let fee_bps = pool.early_withdrawal_fee_bps as int;
    let bps = BPS_DENOMINATOR as int;
    vstd::arithmetic::mul::lemma_mul_is_distributive_sub(a, bps, fee_bps);
    vstd::arithmetic::mul::lemma_mul_nonnegative(a, fee_bps);
    vstd::arithmetic::mul::lemma_mul_nonnegative(a, bps - fee_bps);
    lemma_div_sum_le(a * (bps - fee_bps), a * fee_bps, bps);
    vstd::arithmetic::div_mod::lemma_div_multiples_vanish(a, bps);
    crate::lending::lemma_fee_le_withdrawable(a, pool.early_withdrawal_fee_bps);
}

/// Share fairness: two back-to-back deposits of the same amount by two
/// fresh lenders into an empty pool mint exactly equal share balances, one
/// share per token for each.
pub proof fn lemma_equal_deposits_equal_shares(
    pool: LendingPool,
    first: Lender,
    second: Lender,
    amount: u64,
    now_first: i64,
    now_second: i64,
)
    requires
        pool.lp_total_supply == 0,
        pool.total_deposited_usdc == 0,
        !pool.is_locked,
        first.lp_shares == 0,
        first.total_deposited == 0,
        second.lp_shares == 0,
        second.total_deposited == 0,
        amount > 0,
        amount + amount <= u64::MAX,
    ensures
        spec_deposit(pool, first, amount, now_first) matches Ok(d1) && (d1.2 == amount
            && d1.1.lp_shares == amount && (spec_deposit(d1.0, second, amount, now_second) matches Ok(
            d2,
        ) && (d2.2 == amount && d2.1.lp_shares == amount && d2.1.lp_shares == d1.1.lp_shares))),
{
    let d1 = spec_deposit(pool, first, amount, now_first);
    assert(d1 is Ok);
    let (p1, l1, s1) = d1->Ok_0;
    assert(s1 == amount);
    vstd::arithmetic::div_mod::lemma_div_multiples_vanish(amount as int, amount as int);
    let d2 = spec_deposit(p1, second, amount, now_second);
    assert(d2 is Ok);
}

/// A loan with no principal (and no fee or interest booked against it) has
/// no debt, and a zero debt reads as the infinite health factor sentinel.
pub proof fn lemma_zero_principal_infinite_health(loan: LoanState, threshold_bps: u16, now: i64)
    requires
        loan.principal_borrowed == 0,
        loan.origination_fee == 0,
        loan.interest_accrued == 0,
    ensures
        spec_base_debt(loan, now) == 0,
        spec_health_factor(threshold_bps, loan.collateral_value_usd, 0) == u64::MAX,
{
    let dt = now as int - loan.last_interest_accrued as int;
    assert(0int * loan.borrow_apr_bps as int == 0) by (nonlinear_arith);
    assert(0int * dt == 0) by (nonlinear_arith);
    assert(0int / (BPS_DENOMINATOR as int * crate::repayment::SECONDS_PER_YEAR as int) == 0);
}

/// Once a loan is repaid or liquidated, every lifecycle operation refuses
/// it and leaves it unchanged.
pub proof fn lemma_terminal_loan_admits_no_operation(
    pool: LendingPool,
    registry: AdminRegistry,
    loan: LoanState,
    caller: AccountId,
    verification_id: u32,
    is_verified: bool,
    purity_in_bps: u16,
    weight_in_grams: u64,
    amount: u64,
    quote: PriceQuote,
    now: i64,
)
    requires
        loan.stage == LoanStage::Repaid || loan.stage == LoanStage::Liquidated,
    ensures
        spec_send_for_verification(pool, loan, caller) is Err,
        spec_verify_asset(
            registry,
            loan,
            caller,
            verification_id,
            is_verified,
            purity_in_bps,
            weight_in_grams,
        ) is Err,
        spec_collect_collateral(loan, caller) is Err,
        spec_deposit_collateral(pool, loan, caller) is Err,
        spec_borrow(pool, loan, caller, quote, now) is Err,
        spec_repay(pool, loan, caller, amount, now) is Err,
        spec_liquidate(pool, loan, now) is Err,
{
}

/// Round trip of a rejected pledge: send for verification, fail the
/// verification, collect. The asset ends back with the original borrower
/// and the loan's debt fields are untouched — no tokens flow in any of the
/// three steps.
pub proof fn lemma_rejected_asset_round_trip(
    pool: LendingPool,
    registry: AdminRegistry,
    loan: LoanState,
    admin: AccountId,
    purity_in_bps: u16,
    weight_in_grams: u64,
)
    requires
        registry.spec_is_admin(admin),
        loan.stage == LoanStage::Initial,
        !pool.is_locked,
        loan.verification_id < u32::MAX,
    ensures
        spec_send_for_verification(pool, loan, loan.borrower) matches Ok(sent) && (spec_verify_asset(
            registry,
            sent,
            admin,
            sent.verification_id,
            false,
            purity_in_bps,
            weight_in_grams,
        ) matches Ok(rejected) && (spec_collect_collateral(rejected, loan.borrower) matches Ok(
            collected,
        ) && (collected.borrower == loan.borrower && collected.nft_mint == loan.nft_mint
            && collected.stage == LoanStage::Initial && spec_asset_location(collected.stage)
            == AssetLocation::WithBorrower && collected.principal_borrowed
            == loan.principal_borrowed && collected.origination_fee == loan.origination_fee
            && collected.interest_accrued == loan.interest_accrued))),
{
}

/// Settling a verification round is not repeatable: once `verify_asset`
/// succeeds for a round, any second settlement attempt on the resulting
/// position fails, whatever id, verdict or measurements it carries.
pub proof fn lemma_verify_asset_not_reapplicable(
    registry: AdminRegistry,
    loan: LoanState,
    caller: AccountId,
    verification_id: u32,
    is_verified: bool,
    purity_in_bps: u16,
    weight_in_grams: u64,
    second_registry: AdminRegistry,
    second_caller: AccountId,
    second_id: u32,
    second_verdict: bool,
    second_purity: u16,
    second_weight: u64,
)
    ensures
        spec_verify_asset(
            registry,
            loan,
            caller,
            verification_id,
            is_verified,
            purity_in_bps,
            weight_in_grams,
        ) matches Ok(settled) ==> spec_verify_asset(
            second_registry,
            settled,
            second_caller,
            second_id,
            second_verdict,
            second_purity,
            second_weight,
        ) is Err,
{
}

/// The lock gates exactly the five capital-entry operations: while the pool
/// is locked, deposit, withdraw, send-for-verification, collateral lock-in
/// and borrow all fail with `PoolLocked` (given their earlier checks pass),
/// while repayment and liquidation do not consult the lock at all — the
/// pool can always wind down.
pub proof fn lemma_lock_gates(
    pool: LendingPool,
    lender: Lender,
    loan: LoanState,
    caller: AccountId,
    amount: u64,
    quote: PriceQuote,
    now: i64,
)
    requires
        pool.is_locked,
    ensures
        amount != 0 ==> spec_deposit(pool, lender, amount, now) == Err::<
            (LendingPool, Lender, u64),
            Errors,
        >(Errors::PoolLocked),
        caller == lender.owner ==> spec_withdraw(pool, lender, caller, now) == Err::<
            (LendingPool, Lender, WithdrawOutcome),
            Errors,
        >(Errors::PoolLocked),
        caller == loan.borrower && loan.stage == LoanStage::Initial ==> spec_send_for_verification(
            pool,
            loan,
            caller,
        ) == Err::<LoanState, Errors>(Errors::PoolLocked),
        caller == loan.borrower && loan.stage == LoanStage::Verified ==> spec_deposit_collateral(
            pool,
            loan,
            caller,
        ) == Err::<LoanState, Errors>(Errors::PoolLocked),
        caller == loan.borrower ==> spec_borrow(pool, loan, caller, quote, now) == Err::<
            (LendingPool, LoanState, BorrowOutcome),
            Errors,
        >(Errors::PoolLocked),
        (spec_repay(pool, loan, caller, amount, now) is Ok) == (spec_repay(
            LendingPool { is_locked: false, ..pool },
            loan,
            caller,
            amount,
            now,
        ) is Ok),
        forall|e: Errors|
            (spec_repay(pool, loan, caller, amount, now) == Err::<
                (LendingPool, LoanState, crate::repayment::RepayOutcome),
                Errors,
            >(e)) == (spec_repay(
                LendingPool { is_locked: false, ..pool },
                loan,
                caller,
                amount,
                now,
            ) == Err::<(LendingPool, LoanState, crate::repayment::RepayOutcome), Errors>(e)),
        (spec_liquidate(pool, loan, now) is Ok) == (spec_liquidate(
            LendingPool { is_locked: false, ..pool },
            loan,
            now,
        ) is Ok),
        forall|e: Errors|
            (spec_liquidate(pool, loan, now) == Err::<
                (LendingPool, LoanState, crate::liquidation::LiquidationOutcome),
                Errors,
            >(e)) == (spec_liquidate(LendingPool { is_locked: false, ..pool }, loan, now) == Err::<
                (LendingPool, LoanState, crate::liquidation::LiquidationOutcome),
                Errors,
            >(e)),
{
}

/// A draw followed by its own full repayment leaves the pool's books where
/// they started: the outstanding-draw counter returns to its old value and
/// the deposit book is never touched by either step.
pub proof fn lemma_borrow_then_repay_restores_books(
    pool: LendingPool,
    loan: LoanState,
    caller: AccountId,
    quote: PriceQuote,
    borrow_time: i64,
    amount_to_repay: u64,
    repay_time: i64,
)
    ensures
        spec_borrow(pool, loan, caller, quote, borrow_time) matches Ok(drawn) ==> (spec_repay(
            drawn.0,
            drawn.1,
            caller,
            amount_to_repay,
            repay_time,
        ) matches Ok(settled) ==> (settled.0.total_borrowed == pool.total_borrowed
            && settled.0.total_deposited_usdc == pool.total_deposited_usdc
            && settled.0.lp_total_supply == pool.lp_total_supply
            && settled.1.principal_borrowed == 0)),
{
}

} // verus!
