use meridian_protocol::errors::Errors;
use meridian_protocol::liquidation::{
    calculate_health_factor, calculate_liquidation_penalty, is_under_collateralized,
};
use meridian_protocol::loan::LoanState;
use meridian_protocol::pool::LendingPool;
use meridian_protocol::repayment::calculate_interest_accrued;

fn sample_pool() -> LendingPool {
    LendingPool::initialize_pool(
        1, 5000, 0, 2500, 5000, 7500, 9000, 500, 800, 1200, 2000, 3000, 500, 100, 604_800, 7500,
        1000, 5000,
    )
}

#[test]
fn one_year_of_interest_is_the_apr() {
    // 5% APR on 1_000_000 over exactly one year.
    assert_eq!(calculate_interest_accrued(1_000_000, 500, 0, 31_536_000), Ok(50_000));
}

#[test]
fn interest_truncates_small_intervals_to_zero() {
    // 100 tokens at 5% over 1000 seconds rounds down to nothing.
    assert_eq!(calculate_interest_accrued(100, 500, 0, 1_000), Ok(0));
    assert_eq!(calculate_interest_accrued(1_000_000, 500, 500, 500), Ok(0));
}

#[test]
fn interest_is_linear_in_time() {
    let half = calculate_interest_accrued(1_000_000, 500, 0, 15_768_000).unwrap();
    assert_eq!(half, 25_000);
    let shifted = calculate_interest_accrued(1_000_000, 500, 15_768_000, 31_536_000).unwrap();
    assert_eq!(shifted, 25_000);
}

#[test]
fn interest_overflow_is_reported() {
    assert_eq!(
        calculate_interest_accrued(u64::MAX, u16::MAX, 0, i64::MAX),
        Err(Errors::Overflow)
    );
}

#[test]
fn health_factor_is_infinite_without_debt() {
    let pool = sample_pool();
    let mut loan = LoanState::new(3, 77);
    loan.collateral_value_usd = 123;
    assert_eq!(calculate_health_factor(&pool, &loan, 0), Ok(u64::MAX));
}

#[test]
fn health_factor_truncates_toward_zero() {
    let pool = sample_pool();
    let mut loan = LoanState::new(3, 77);
    loan.collateral_value_usd = 1_000_000;
    // threshold 7500: collateral supports exactly 750_000 of debt.
    assert_eq!(calculate_health_factor(&pool, &loan, 750_000), Ok(1));
    assert_eq!(calculate_health_factor(&pool, &loan, 750_001), Ok(0));
    assert_eq!(calculate_health_factor(&pool, &loan, 375_000), Ok(2));
}

#[test]
fn under_collateralization_uses_the_direct_inequality() {
    // At the exact boundary the loan is still healthy.
    assert!(!is_under_collateralized(7500, 1_000_000, 750_000));
    assert!(is_under_collateralized(7500, 1_000_000, 750_001));
    // A zero debt is never under water.
    assert!(!is_under_collateralized(7500, 0, 0));
    assert!(is_under_collateralized(7500, 0, 1));
}

#[test]
fn liquidation_penalty_is_a_principal_fraction() {
    let pool = sample_pool();
    let mut loan = LoanState::new(3, 77);
    loan.principal_borrowed = 500_000;
    assert_eq!(calculate_liquidation_penalty(&pool, &loan), Ok(50_000));
    loan.principal_borrowed = 99;
    assert_eq!(calculate_liquidation_penalty(&pool, &loan), Ok(9));
}

#[test]
fn liquidation_penalty_overflow_is_reported() {
    let mut pool = sample_pool();
    pool.liquidation_penalty_bps = 65_535;
    let mut loan = LoanState::new(3, 77);
    loan.principal_borrowed = u64::MAX;
    assert_eq!(calculate_liquidation_penalty(&pool, &loan), Err(Errors::Overflow));
}
