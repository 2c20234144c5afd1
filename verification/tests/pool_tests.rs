use meridian_protocol::errors::Errors;
use meridian_protocol::pool::LendingPool;

fn sample_pool(owner: u64) -> LendingPool {
    LendingPool::initialize_pool(
        owner, 5000, 0, 2500, 5000, 7500, 9000, 500, 800, 1200, 2000, 3000, 500, 100, 604_800,
        7500, 1000, 5000,
    )
}

#[test]
fn initialize_stores_parameters_and_unlocks() {
    let pool = sample_pool(7);
    assert_eq!(pool.owner, 7);
    assert_eq!(pool.total_deposited_usdc, 0);
    assert_eq!(pool.total_borrowed, 0);
    assert_eq!(pool.lp_total_supply, 0);
    assert_eq!(pool.loan_to_value_bps, 5000);
    assert_eq!(pool.liquidation_threshold_bps, 7500);
    assert_eq!(pool.liquidation_penalty_bps, 1000);
    assert_eq!(pool.liquidator_reward_bps, 5000);
    assert_eq!(pool.early_withdrawal_fee_bps, 500);
    assert_eq!(pool.origination_fee_bps, 100);
    assert_eq!(pool.withdrawal_epoch, 604_800);
    assert_eq!(pool.utilization_rate_tier_1_bps, 0);
    assert_eq!(pool.apr_tier_5_bps, 3000);
    assert!(!pool.is_locked);
}

#[test]
fn lock_and_unlock_are_owner_only_and_not_idempotent() {
    let mut pool = sample_pool(7);
    assert_eq!(pool.lock_pool(8), Err(Errors::OnlyAuthority));
    assert_eq!(pool.unlock_pool(7), Err(Errors::PoolAlreadyUnLocked));
    assert_eq!(pool.lock_pool(7), Ok(()));
    assert!(pool.is_locked);
    assert_eq!(pool.lock_pool(7), Err(Errors::PoolAlreadyLocked));
    assert_eq!(pool.unlock_pool(8), Err(Errors::OnlyAuthority));
    assert_eq!(pool.unlock_pool(7), Ok(()));
    assert!(!pool.is_locked);
}

#[test]
fn utilization_is_zero_on_empty_pool() {
    let pool = sample_pool(7);
    assert_eq!(pool.get_current_utilization_rate(), 0);
}

#[test]
fn utilization_is_borrowed_share_in_bps() {
    let mut pool = sample_pool(7);
    pool.total_deposited_usdc = 1_000_000;
    pool.total_borrowed = 400_000;
    assert_eq!(pool.get_current_utilization_rate(), 4000);
    pool.total_borrowed = 1_000_000;
    assert_eq!(pool.get_current_utilization_rate(), 10_000);
    pool.total_borrowed = 1;
    assert_eq!(pool.get_current_utilization_rate(), 0);
}

#[test]
fn borrow_rate_tier_boundaries_are_lower_inclusive() {
    let mut pool = sample_pool(7);
    pool.total_deposited_usdc = 10_000;
    let cases: [(u64, u16); 7] = [
        (0, 500),
        (2499, 500),
        (2500, 800),
        (5000, 1200),
        (7500, 2000),
        (9000, 3000),
        (10_000, 3000),
    ];
    for (borrowed, apr) in cases {
        pool.total_borrowed = borrowed;
        assert_eq!(pool.calculate_borrow_rate_tier(), apr);
    }
}

#[test]
fn utilization_below_first_threshold_uses_first_tier() {
    // A curve whose first threshold sits above zero still prices low
    // utilization at the first tier's APR.
    let pool = LendingPool::initialize_pool(
        7, 5000, 1000, 2500, 5000, 7500, 9000, 500, 800, 1200, 2000, 3000, 500, 100, 604_800,
        7500, 1000, 5000,
    );
    assert_eq!(pool.get_current_utilization_rate(), 0);
    assert_eq!(pool.calculate_borrow_rate_tier(), 500);
}

#[test]
fn origination_fee_truncates() {
    let pool = sample_pool(7);
    assert_eq!(pool.calculate_origination_fee(49_995_000), Ok(499_950));
    assert_eq!(pool.calculate_origination_fee(99), Ok(0));
    assert_eq!(pool.calculate_origination_fee(0), Ok(0));
}

#[test]
fn origination_fee_overflow_is_reported() {
    let mut pool = sample_pool(7);
    pool.origination_fee_bps = 20_000;
    assert_eq!(pool.calculate_origination_fee(u64::MAX), Err(Errors::Overflow));
}

#[test]
fn first_deposit_mints_one_share_per_token() {
    let pool = sample_pool(7);
    assert_eq!(pool.calculate_shares_to_mint(12_345), Ok(12_345));
}

#[test]
fn later_deposits_mint_pro_rata() {
    let mut pool = sample_pool(7);
    pool.total_deposited_usdc = 200;
    pool.lp_total_supply = 100;
    // 50 tokens buy 25 shares at a book value of 2 tokens per share.
    assert_eq!(pool.calculate_shares_to_mint(50), Ok(25));
    // Truncation: 3 tokens buy 1 share.
    assert_eq!(pool.calculate_shares_to_mint(3), Ok(1));
}

#[test]
fn withdrawable_amount_is_pro_rata_book_value() {
    let mut pool = sample_pool(7);
    pool.total_deposited_usdc = 10;
    pool.lp_total_supply = 3;
    assert_eq!(pool.get_total_withdrawable_amount(1), 3);
    assert_eq!(pool.get_total_withdrawable_amount(3), 10);
    assert_eq!(pool.get_total_withdrawable_amount(0), 0);
}

#[test]
fn early_withdrawal_amount_discounts_fee() {
    let pool = sample_pool(7);
    assert_eq!(pool.calculate_early_withdrawal_amount(1_000_000), 950_000);
    assert_eq!(pool.calculate_early_withdrawal_amount(0), 0);
}

#[test]
fn epoch_check_compares_elapsed_time() {
    let pool = sample_pool(7);
    assert!(!pool.is_withdrawal_epoch_over(0, 604_799));
    assert!(pool.is_withdrawal_epoch_over(0, 604_800));
    assert!(pool.is_withdrawal_epoch_over(1000, 2_000_000));
}

#[test]
fn interest_earned_is_book_value_over_deposits() {
    let mut pool = sample_pool(7);
    pool.total_deposited_usdc = 1200;
    pool.lp_total_supply = 1000;
    assert_eq!(pool.get_total_interest_earned(1000, 1000), 200);
    // Floored at zero when the book value trails the deposits.
    assert_eq!(pool.get_total_interest_earned(5000, 1000), 0);
}

#[test]
fn share_mint_overflow_is_reported() {
    let mut pool = sample_pool(7);
    pool.total_deposited_usdc = 1;
    pool.lp_total_supply = u64::MAX;
    assert_eq!(pool.calculate_shares_to_mint(u64::MAX), Err(Errors::Overflow));
}
