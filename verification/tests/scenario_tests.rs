use meridian_protocol::borrowing::{borrow, deposit_collateral, deposit_for_verification, verify_asset};
use meridian_protocol::errors::Errors;
use meridian_protocol::lender::Lender;
use meridian_protocol::lending::{deposit_liquidity, withdraw_liquidity};
use meridian_protocol::liquidation::{get_current_health_factor, liquidate};
use meridian_protocol::loan::{AssetLocation, LoanStage, LoanState};
use meridian_protocol::oracle::PriceQuote;
use meridian_protocol::pool::LendingPool;
use meridian_protocol::registry::AdminRegistry;
use meridian_protocol::repayment::{repay, total_debt_to_repay};

const OWNER: u64 = 1;
const ADMIN: u64 = 2;
const BORROWER: u64 = 3;
const LENDER_A: u64 = 4;
const LENDER_B: u64 = 5;
const YEAR: i64 = 31_536_000;

fn protocol() -> (LendingPool, AdminRegistry) {
    // ltv 50%, origination 1%, tier-1 utilization floor 0 with 5% APR.
    let pool = LendingPool::initialize_pool(
        OWNER, 5000, 0, 2500, 5000, 7500, 9000, 500, 800, 5000, 5500, 6000, 500, 100, 604_800,
        7500, 1000, 5000,
    );
    let mut reg = AdminRegistry::new(OWNER);
    reg.add_admin(OWNER, ADMIN).unwrap();
    (pool, reg)
}

fn unit_quote(publish_time: i64) -> PriceQuote {
    PriceQuote { price: 31_103_476, exponent: -8, publish_time }
}

fn pledge(
    pool: &mut LendingPool,
    reg: &AdminRegistry,
    loan: &mut LoanState,
    purity: u16,
    weight: u64,
) {
    deposit_for_verification(pool, loan, BORROWER).unwrap();
    verify_asset(reg, loan, ADMIN, loan.verification_id, true, purity, weight).unwrap();
    deposit_collateral(pool, loan, BORROWER).unwrap();
}

#[test]
fn happy_path_lend_borrow_repay() {
    let (mut pool, reg) = protocol();
    let mut lender = Lender::new(LENDER_A);
    let minted = deposit_liquidity(&mut pool, &mut lender, 1_000_000_000, 0).unwrap();
    assert_eq!(minted, 1_000_000_000);
    assert_eq!(pool.total_deposited_usdc, 1_000_000_000);

    // 100 g of gold (weight scaled by 10^6) at purity 9999, priced so one
    // gram-unit is worth exactly one token-unit of the 10^6 scale.
    let mut loan = LoanState::new(BORROWER, 77);
    pledge(&mut pool, &reg, &mut loan, 9999, 100_000_000);
    let quote = unit_quote(0);
    let out = borrow(&mut pool, &mut loan, BORROWER, &quote, 0).unwrap();
    assert_eq!(out.collateral_value_usd, 99_990_000);
    assert_eq!(out.principal, 49_995_000);
    assert_eq!(out.origination_fee, 499_950);
    // Utilization just under 5% stays in tier one: 5% APR.
    assert_eq!(out.borrow_apr_bps, 500);
    assert_eq!(pool.total_borrowed, 49_995_000);
    assert_eq!(loan.stage, LoanStage::Active);

    // One year later the debt is principal + origination + 5% interest.
    let debt = total_debt_to_repay(&pool, &loan, YEAR).unwrap();
    assert_eq!(debt, 49_995_000 + 499_950 + 2_499_750);
    assert_eq!(
        repay(&mut pool, &mut loan, BORROWER, debt - 1, YEAR),
        Err(Errors::RepayAmountNotEnough)
    );
    let settled = repay(&mut pool, &mut loan, BORROWER, debt, YEAR).unwrap();
    assert_eq!(settled.total_debt, 52_994_700);
    assert_eq!(settled.interest_delta, 2_499_750);
    assert_eq!(loan.stage, LoanStage::Repaid);
    assert_eq!(loan.current_asset_location(), AssetLocation::WithBorrower);
    assert_eq!(pool.total_borrowed, 0);
    assert_eq!(loan.interest_accrued, 2_499_750);
}

#[test]
fn share_math_fairness_across_a_draw() {
    let (mut pool, reg) = protocol();
    let mut lender_a = Lender::new(LENDER_A);
    let a_shares = deposit_liquidity(&mut pool, &mut lender_a, 100, 0).unwrap();
    assert_eq!(a_shares, 100);

    // A pledge worth 80 lets the borrower draw exactly 40.
    let mut loan = LoanState::new(BORROWER, 77);
    pledge(&mut pool, &reg, &mut loan, 10_000, 80);
    let out = borrow(&mut pool, &mut loan, BORROWER, &unit_quote(0), 0).unwrap();
    assert_eq!(out.principal, 40);
    // The draw leaves the deposit book unchanged.
    assert_eq!(pool.total_deposited_usdc, 100);
    assert_eq!(pool.total_borrowed, 40);

    let mut lender_b = Lender::new(LENDER_B);
    let b_shares = deposit_liquidity(&mut pool, &mut lender_b, 100, 0).unwrap();
    // Mid-borrow the book still shows 100 deposited, so B's 100 tokens buy
    // exactly A's share count.
    assert_eq!(b_shares, 100);
    assert_eq!(lender_a.lp_shares, lender_b.lp_shares);
    assert_eq!(pool.lp_total_supply, 200);
}

#[test]
fn early_withdrawal_pays_fee_to_the_vault() {
    let (mut pool, _) = protocol();
    let mut lender = Lender::new(LENDER_A);
    deposit_liquidity(&mut pool, &mut lender, 1_000_000, 0).unwrap();
    // Withdrawing 1000 seconds into a 7-day epoch costs the 5% fee.
    let out = withdraw_liquidity(&mut pool, &mut lender, LENDER_A, 1_000).unwrap();
    assert_eq!(out.total_withdrawable, 1_000_000);
    assert_eq!(out.fee_to_vault, 50_000);
    assert_eq!(out.amount_to_lender, 950_000);
    assert_eq!(lender.lp_shares, 0);
    assert_eq!(pool.total_deposited_usdc, 0);
    assert_eq!(pool.lp_total_supply, 0);
}

#[test]
fn late_withdrawal_pays_in_full() {
    let (mut pool, _) = protocol();
    let mut lender = Lender::new(LENDER_A);
    deposit_liquidity(&mut pool, &mut lender, 1_000_000, 0).unwrap();
    let out = withdraw_liquidity(&mut pool, &mut lender, LENDER_A, 604_800).unwrap();
    assert_eq!(out.amount_to_lender, 1_000_000);
    assert_eq!(out.fee_to_vault, 0);
}

#[test]
fn withdrawal_is_owner_only() {
    let (mut pool, _) = protocol();
    let mut lender = Lender::new(LENDER_A);
    deposit_liquidity(&mut pool, &mut lender, 1_000_000, 0).unwrap();
    assert_eq!(
        withdraw_liquidity(&mut pool, &mut lender, LENDER_B, 0),
        Err(Errors::InvalidUser)
    );
}

#[test]
fn zero_deposit_is_rejected() {
    let (mut pool, _) = protocol();
    let mut lender = Lender::new(LENDER_A);
    assert_eq!(
        deposit_liquidity(&mut pool, &mut lender, 0, 0),
        Err(Errors::NullDepositNotAllowed)
    );
}

#[test]
fn top_up_keeps_the_entry_timestamp() {
    let (mut pool, _) = protocol();
    let mut lender = Lender::new(LENDER_A);
    deposit_liquidity(&mut pool, &mut lender, 500, 1_000).unwrap();
    assert_eq!(lender.deposited_at, 1_000);
    deposit_liquidity(&mut pool, &mut lender, 500, 9_000).unwrap();
    // The early-withdrawal clock runs from the original entry.
    assert_eq!(lender.deposited_at, 1_000);
    assert_eq!(lender.total_deposited, 1_000);
    assert_eq!(lender.lp_shares, 1_000);
}

#[test]
fn liquidation_triggers_when_interest_breaches_threshold() {
    let (mut pool, reg) = protocol();
    let mut lender = Lender::new(LENDER_A);
    deposit_liquidity(&mut pool, &mut lender, 1_000_000, 0).unwrap();

    // Collateral worth exactly 1_000_000; ltv 50% draws 500_000.
    let mut loan = LoanState::new(BORROWER, 77);
    pledge(&mut pool, &reg, &mut loan, 10_000, 1_000_000);
    let out = borrow(&mut pool, &mut loan, BORROWER, &unit_quote(0), 0).unwrap();
    assert_eq!(out.principal, 500_000);
    assert_eq!(out.collateral_value_usd, 1_000_000);
    // 50% utilization prices the draw at the 50% APR tier.
    assert_eq!(out.borrow_apr_bps, 5000);

    // Freshly drawn, the loan is healthy and cannot be seized.
    assert_eq!(liquidate(&mut pool, &mut loan, 0), Err(Errors::CannotLiquidate));

    // After a year, debt = 500_000 + 5_000 + 250_000 = 755_000, above the
    // 7500-bps threshold on a collateral of 1_000_000.
    assert_eq!(get_current_health_factor(&pool, &loan, YEAR), Ok(0));
    let seized = liquidate(&mut pool, &mut loan, YEAR).unwrap();
    assert_eq!(seized.penalty, 50_000);
    assert_eq!(seized.reward_to_liquidator, 25_000);
    assert_eq!(seized.interest_delta, 250_000);
    assert_eq!(loan.stage, LoanStage::Liquidated);
    assert_eq!(loan.current_asset_location(), AssetLocation::SeizeVault);
    // The reward is drawn against depositor capital.
    assert_eq!(pool.total_deposited_usdc, 975_000);
}

#[test]
fn lock_gates_capital_entry_but_not_wind_down() {
    let (mut pool, reg) = protocol();
    let mut lender = Lender::new(LENDER_A);
    deposit_liquidity(&mut pool, &mut lender, 1_000_000, 0).unwrap();
    let mut loan = LoanState::new(BORROWER, 77);
    pledge(&mut pool, &reg, &mut loan, 10_000, 1_000_000);
    let out = borrow(&mut pool, &mut loan, BORROWER, &unit_quote(0), 0).unwrap();
    assert_eq!(out.principal, 500_000);

    // A second position to probe the gated entry points.
    let mut waiting = LoanState::new(LENDER_B, 88);

    pool.lock_pool(OWNER).unwrap();
    assert_eq!(
        deposit_liquidity(&mut pool, &mut lender, 1, 0),
        Err(Errors::PoolLocked)
    );
    assert_eq!(
        withdraw_liquidity(&mut pool, &mut lender, LENDER_A, 0),
        Err(Errors::PoolLocked)
    );
    assert_eq!(
        deposit_for_verification(&pool, &mut waiting, LENDER_B),
        Err(Errors::PoolLocked)
    );
    let mut verified = LoanState::new(LENDER_B, 88);
    verified.stage = LoanStage::Verified;
    assert_eq!(
        deposit_collateral(&pool, &mut verified, LENDER_B),
        Err(Errors::PoolLocked)
    );
    let mut escrowed = LoanState::new(LENDER_B, 88);
    escrowed.stage = LoanStage::CollateralHeld;
    assert_eq!(
        borrow(&mut pool, &mut escrowed, LENDER_B, &unit_quote(0), 0),
        Err(Errors::PoolLocked)
    );

    // Winding down stays possible: the active loan can still be repaid.
    let debt = total_debt_to_repay(&pool, &loan, 0).unwrap();
    let settled = repay(&mut pool, &mut loan, BORROWER, debt, 0).unwrap();
    assert_eq!(settled.amount_transferred, debt);
    assert_eq!(settled.total_debt, debt);
    assert_eq!(loan.stage, LoanStage::Repaid);
}

#[test]
fn liquidation_still_possible_while_locked() {
    let (mut pool, reg) = protocol();
    let mut lender = Lender::new(LENDER_A);
    deposit_liquidity(&mut pool, &mut lender, 1_000_000, 0).unwrap();
    let mut loan = LoanState::new(BORROWER, 77);
    pledge(&mut pool, &reg, &mut loan, 10_000, 1_000_000);
    borrow(&mut pool, &mut loan, BORROWER, &unit_quote(0), 0).unwrap();
    pool.lock_pool(OWNER).unwrap();
    let seized = liquidate(&mut pool, &mut loan, YEAR).unwrap();
    assert_eq!(seized.reward_to_liquidator, 25_000);
    assert_eq!(loan.stage, LoanStage::Liquidated);
}

#[test]
fn borrow_fails_without_liquidity() {
    let (mut pool, reg) = protocol();
    let mut lender = Lender::new(LENDER_A);
    // Only 100 tokens deposited; a pledge worth 1_000_000 wants 500_000.
    deposit_liquidity(&mut pool, &mut lender, 100, 0).unwrap();
    let mut loan = LoanState::new(BORROWER, 77);
    pledge(&mut pool, &reg, &mut loan, 10_000, 1_000_000);
    assert_eq!(
        borrow(&mut pool, &mut loan, BORROWER, &unit_quote(0), 0),
        Err(Errors::InsufficientLiquidityToBorrow)
    );
    assert_eq!(loan.stage, LoanStage::CollateralHeld);
    assert_eq!(pool.total_borrowed, 0);
}

#[test]
fn borrow_rejects_stale_and_invalid_quotes() {
    let (mut pool, reg) = protocol();
    let mut lender = Lender::new(LENDER_A);
    deposit_liquidity(&mut pool, &mut lender, 1_000_000, 0).unwrap();
    let mut loan = LoanState::new(BORROWER, 77);
    pledge(&mut pool, &reg, &mut loan, 10_000, 1_000_000);
    let stale = unit_quote(0);
    assert_eq!(
        borrow(&mut pool, &mut loan, BORROWER, &stale, 101),
        Err(Errors::StaleOracle)
    );
    let invalid = PriceQuote { price: 0, exponent: -8, publish_time: 100 };
    assert_eq!(
        borrow(&mut pool, &mut loan, BORROWER, &invalid, 100),
        Err(Errors::InvalidPrice)
    );
    assert_eq!(loan.stage, LoanStage::CollateralHeld);
}

#[test]
fn borrow_is_borrower_only() {
    let (mut pool, reg) = protocol();
    let mut lender = Lender::new(LENDER_A);
    deposit_liquidity(&mut pool, &mut lender, 1_000_000, 0).unwrap();
    let mut loan = LoanState::new(BORROWER, 77);
    pledge(&mut pool, &reg, &mut loan, 10_000, 1_000_000);
    assert_eq!(
        borrow(&mut pool, &mut loan, LENDER_A, &unit_quote(0), 0),
        Err(Errors::InvalidUser)
    );
    assert_eq!(
        repay(&mut pool, &mut loan, LENDER_A, u64::MAX, 0),
        Err(Errors::InvalidUser)
    );
}

#[test]
fn self_rescue_requires_the_penalty_too() {
    let (mut pool, reg) = protocol();
    let mut lender = Lender::new(LENDER_A);
    deposit_liquidity(&mut pool, &mut lender, 1_000_000, 0).unwrap();
    let mut loan = LoanState::new(BORROWER, 77);
    pledge(&mut pool, &reg, &mut loan, 10_000, 1_000_000);
    borrow(&mut pool, &mut loan, BORROWER, &unit_quote(0), 0).unwrap();
    // Under water after a year: the debt carries the 10% penalty on the
    // principal on top of principal, fee and interest.
    let debt = total_debt_to_repay(&pool, &loan, YEAR).unwrap();
    assert_eq!(debt, 500_000 + 5_000 + 250_000 + 50_000);
    assert_eq!(
        repay(&mut pool, &mut loan, BORROWER, debt - 1, YEAR),
        Err(Errors::RepayAmountNotEnough)
    );
    let settled = repay(&mut pool, &mut loan, BORROWER, debt, YEAR).unwrap();
    assert_eq!(settled.total_debt, 805_000);
    assert_eq!(loan.stage, LoanStage::Repaid);
}

#[test]
fn tiny_deposit_can_mint_zero_shares() {
    let (mut pool, _) = protocol();
    let mut whale = Lender::new(LENDER_A);
    deposit_liquidity(&mut pool, &mut whale, 100, 0).unwrap();
    // Book value doubles without new shares (simulating booked yield), so a
    // one-token deposit truncates to zero shares but still enters the book.
    pool.total_deposited_usdc = 200;
    let mut minnow = Lender::new(LENDER_B);
    let minted = deposit_liquidity(&mut pool, &mut minnow, 1, 0).unwrap();
    assert_eq!(minted, 0);
    assert_eq!(pool.total_deposited_usdc, 201);
    assert_eq!(pool.lp_total_supply, 100);
}

#[test]
fn empty_position_withdraws_nothing() {
    let (mut pool, _) = protocol();
    let mut funder = Lender::new(LENDER_A);
    deposit_liquidity(&mut pool, &mut funder, 1_000, 0).unwrap();
    let mut idle = Lender::new(LENDER_B);
    let out = withdraw_liquidity(&mut pool, &mut idle, LENDER_B, 0).unwrap();
    assert_eq!(out.total_withdrawable, 0);
    assert_eq!(out.amount_to_lender, 0);
    assert_eq!(pool.total_deposited_usdc, 1_000);
}

#[test]
fn full_withdrawal_empties_the_book() {
    let (mut pool, _) = protocol();
    let mut lender = Lender::new(LENDER_A);
    deposit_liquidity(&mut pool, &mut lender, 777, 0).unwrap();
    let out = withdraw_liquidity(&mut pool, &mut lender, LENDER_A, 604_800).unwrap();
    assert_eq!(out.amount_to_lender, 777);
    assert_eq!(pool.total_deposited_usdc, 0);
    assert_eq!(pool.lp_total_supply, 0);
}
