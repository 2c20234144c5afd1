use vstd::prelude::*;

use crate::errors::Errors;
use crate::lender::Lender;
use crate::pool::{spec_shares_to_mint, LendingPool, BPS_DENOMINATOR};
use crate::AccountId;

verus! {

/// What a withdrawal pays out and burns. The host transfers
/// `amount_to_lender` to the lender and `fee_to_vault` to the fee vault.
#[derive(Clone, Copy, Debug, PartialEq, Eq, Structural)]
pub struct WithdrawOutcome {
    /// Shares burned (the position's full balance).
    pub shares_burned: u64,
    /// Pro-rata book value of the burned shares.
    pub total_withdrawable: u64,
    /// Paid to the lender: the full book value, or book value minus the
    /// early-withdrawal fee.
    pub amount_to_lender: u64,
    /// Early-withdrawal fee withheld for the fee vault; zero once the
    /// withdrawal epoch has elapsed.
    pub fee_to_vault: u64,
}

/// Book value of `lp_shares` shares: `lp_shares * total_deposited /
/// lp_supply`, truncating; zero when no shares exist.
pub open spec fn spec_withdrawable(lp_shares: u64, total_deposited: u64, lp_supply: u64) -> int {
    if lp_supply == 0 {
        0
    } else {
        lp_shares as int * total_deposited as int / lp_supply as int
    }
}

/// Fee withheld from an early withdrawal of book value `w`.
pub open spec fn spec_early_withdrawal_fee(w: int, fee_bps: u16) -> int {
    w * fee_bps as int / BPS_DENOMINATOR as int
}

/// The deposit transition. Checks run in this order: a zero deposit is
/// rejected, a locked pool is rejected, then each counter update is checked
/// against `u64`; on success the pool's book and the lender's position grow
/// together and the minted shares are reported.
pub open spec fn spec_deposit(pool: LendingPool, lender: Lender, amount: u64, now: i64) -> Result<
    (LendingPool, Lender, u64),
    Errors,
> {
    if amount == 0 {
        Err(Errors::NullDepositNotAllowed)
    } else if pool.is_locked {
        Err(Errors::PoolLocked)
    } else {
        let shares = spec_shares_to_mint(amount, pool.lp_total_supply, pool.total_deposited_usdc);
        if shares > u64::MAX as int {
            Err(Errors::Overflow)
        } else if pool.total_deposited_usdc + amount > u64::MAX {
            Err(Errors::Overflow)
        } else if pool.lp_total_supply as int + shares > u64::MAX as int {
            Err(Errors::Overflow)
        } else if lender.lp_shares as int + shares > u64::MAX as int {
            Err(Errors::Overflow)
        } else if lender.total_deposited + amount > u64::MAX {
            Err(Errors::Overflow)
        } else {
            Ok(
                (
                    LendingPool {
                        total_deposited_usdc: (pool.total_deposited_usdc + amount) as u64,
                        lp_total_supply: (pool.lp_total_supply as int + shares) as u64,
                        ..pool
                    },
                    Lender {
                        lp_shares: (lender.lp_shares as int + shares) as u64,
                        deposited_at: if lender.lp_shares == 0 {
                            now
                        } else {
                            lender.deposited_at
                        },
                        total_deposited: (lender.total_deposited + amount) as u64,
                        ..lender
                    },
                    shares as u64,
                ),
            )
        }
    }
}

/// The withdraw transition: the position's full share balance is burned; its
/// book value is paid out, less the early-withdrawal fee when the epoch has
/// not elapsed since the position's entry timestamp.
pub open spec fn spec_withdraw(
    pool: LendingPool,
    lender: Lender,
    caller: AccountId,
    now: i64,
) -> Result<(LendingPool, Lender, WithdrawOutcome), Errors> {
    if caller != lender.owner {
        Err(Errors::InvalidUser)
    } else if pool.is_locked {
        Err(Errors::PoolLocked)
    } else {
        let w = spec_withdrawable(lender.lp_shares, pool.total_deposited_usdc, pool.lp_total_supply);
        let epoch_over = now as int - lender.deposited_at as int >= pool.withdrawal_epoch as int;
        let fee = if epoch_over {
            0
        } else {
            spec_early_withdrawal_fee(w, pool.early_withdrawal_fee_bps)
        };
        Ok(
            (
                LendingPool {
                    total_deposited_usdc: (pool.total_deposited_usdc - w) as u64,
                    lp_total_supply: (pool.lp_total_supply - lender.lp_shares) as u64,
                    ..pool
                },
                Lender { lp_shares: 0u64, ..lender },
                WithdrawOutcome {
                    shares_burned: lender.lp_shares,
                    total_withdrawable: w as u64,
                    amount_to_lender: (w - fee) as u64,
                    fee_to_vault: fee as u64,
                },
            ),
        )
    }
}

/// Book value of a share balance never exceeds the pool's deposits, is exact
/// on a full balance, and stays strictly below the deposits on a partial
/// balance.
pub proof fn lemma_withdrawable_bounds(lp_shares: u64, total_deposited: u64, lp_supply: u64)
    requires
        lp_shares <= lp_supply,
    ensures
        0 <= spec_withdrawable(lp_shares, total_deposited, lp_supply) <= total_deposited,
        lp_shares == lp_supply && lp_supply != 0 ==> spec_withdrawable(
            lp_shares,
            total_deposited,
            lp_supply,
        ) == total_deposited,
        lp_shares < lp_supply && total_deposited > 0 ==> spec_withdrawable(
            lp_shares,
            total_deposited,
            lp_supply,
        ) < total_deposited,
{
    if lp_supply != 0 {
        let s = lp_shares as int;
        let cap = lp_supply as int;
        let d = total_deposited as int;
        vstd::arithmetic::mul::lemma_mul_inequality(s, cap, d);
        vstd::arithmetic::div_mod::lemma_div_is_ordered(s * d, cap * d, cap);
        vstd::arithmetic::div_mod::lemma_div_multiples_vanish(d, cap);
        vstd::arithmetic::div_mod::lemma_div_pos_is_pos(s * d, cap);
        vstd::arithmetic::mul::lemma_mul_nonnegative(s, d);
        if s < cap && d > 0 {
            vstd::arithmetic::mul::lemma_mul_strict_inequality(s, cap, d);
            vstd::arithmetic::div_mod::lemma_multiply_divide_lt(s * d, cap, d);
        }
    }
}

/// The early-withdrawal fee never exceeds the book value it is taken from.
pub proof fn lemma_fee_le_withdrawable(w: int, fee_bps: u16)
    requires
        0 <= w,
        fee_bps <= BPS_DENOMINATOR,
    ensures
        0 <= spec_early_withdrawal_fee(w, fee_bps) <= w,
{
    vstd::arithmetic::mul::lemma_mul_inequality(fee_bps as int, BPS_DENOMINATOR as int, w);
    vstd::arithmetic::div_mod::lemma_multiply_divide_le(
        w * fee_bps as int,
        BPS_DENOMINATOR as int,
        w,
    );
    vstd::arithmetic::mul::lemma_mul_nonnegative(w, fee_bps as int);
    vstd::arithmetic::div_mod::lemma_div_pos_is_pos(w * fee_bps as int, BPS_DENOMINATOR as int);
}

impl LendingPool {
    /// Shares minted for a deposit of `deposit_amount` at the pool's current
    /// book: one share per token on an empty pool, pro rata afterwards.
    /// Fails only when the pro-rata figure does not fit `u64`.
    pub fn calculate_shares_to_mint(&self, deposit_amount: u64) -> (r: Result<u64, Errors>)
        requires
            self.lp_total_supply != 0 ==> self.total_deposited_usdc != 0,
        ensures
            r matches Ok(shares) ==> shares as int == spec_shares_to_mint(
                deposit_amount,
                self.lp_total_supply,
                self.total_deposited_usdc,
            ),
            r is Err <==> spec_shares_to_mint(
                deposit_amount,
                self.lp_total_supply,
                self.total_deposited_usdc,
            ) > u64::MAX as int,
            r is Err ==> r == Err::<u64, Errors>(Errors::Overflow),
    {
        if self.lp_total_supply == 0 {
            return Ok(deposit_amount);
        }
        proof {
            vstd::arithmetic::mul::lemma_mul_upper_bound(
                deposit_amount as int,
                u64::MAX as int,
                self.lp_total_supply as int,
                u64::MAX as int,
            );
        }
        let scaled: u128 = (deposit_amount as u128) * (self.lp_total_supply as u128);
        let shares: u128 = scaled / (self.total_deposited_usdc as u128);
        if shares > u64::MAX as u128 {
            return Err(Errors::Overflow);
        }
        Ok(shares as u64)
    }

    /// Book value of `lp_shares` shares at the pool's current totals. Never
    /// exceeds the pool's deposits.
    pub fn get_total_withdrawable_amount(&self, lp_shares: u64) -> (r: u64)
        requires
            lp_shares <= self.lp_total_supply,
        ensures
            r as int == spec_withdrawable(lp_shares, self.total_deposited_usdc, self.lp_total_supply),
            r <= self.total_deposited_usdc,
    {
        proof {
            lemma_withdrawable_bounds(lp_shares, self.total_deposited_usdc, self.lp_total_supply);
            vstd::arithmetic::mul::lemma_mul_upper_bound(
                lp_shares as int,
                u64::MAX as int,
                self.total_deposited_usdc as int,
                u64::MAX as int,
            );
        }
        if self.lp_total_supply == 0 {
            return 0;
        }
        let scaled: u128 = (lp_shares as u128) * (self.total_deposited_usdc as u128);
        let amount: u128 = scaled / (self.lp_total_supply as u128);
        amount as u64
    }

    /// Whether `now` lies at least one withdrawal epoch after `deposited_at`.
    pub fn is_withdrawal_epoch_over(&self, deposited_at: i64, now: i64) -> (r: bool)
        ensures
            r == (now as int - deposited_at as int >= self.withdrawal_epoch as int),
    {
        (now as i128) - (deposited_at as i128) >= self.withdrawal_epoch as i128
    }

    /// Amount paid to the lender when withdrawing before the epoch elapses:
    /// the book value minus the early-withdrawal fee.
    pub fn calculate_early_withdrawal_amount(&self, total_withdrawal_amount: u64) -> (r: u64)
        requires
            self.early_withdrawal_fee_bps <= BPS_DENOMINATOR,
        ensures
            r as int == total_withdrawal_amount - spec_early_withdrawal_fee(
                total_withdrawal_amount as int,
                self.early_withdrawal_fee_bps,
            ),
    {
        proof {
            lemma_fee_le_withdrawable(total_withdrawal_amount as int, self.early_withdrawal_fee_bps);
        }
        let scaled: u128 = (total_withdrawal_amount as u128) * (self.early_withdrawal_fee_bps
            as u128);
        let fee: u128 = scaled / (BPS_DENOMINATOR as u128);
        total_withdrawal_amount - (fee as u64)
    }

    /// Interest a position has earned: the book value of its shares over the
    /// capital it deposited, floored at zero.
    pub fn get_total_interest_earned(
        &self,
        total_deposited_collateral: u64,
        total_lp_shares_owned: u64,
    ) -> (r: u64)
        requires
            total_lp_shares_owned <= self.lp_total_supply,
        ensures
            r as int == if spec_withdrawable(
                total_lp_shares_owned,
                self.total_deposited_usdc,
                self.lp_total_supply,
            ) >= total_deposited_collateral {
                spec_withdrawable(
                    total_lp_shares_owned,
                    self.total_deposited_usdc,
                    self.lp_total_supply,
                ) - total_deposited_collateral
            } else {
                0
            },
    {
        let withdrawable = self.get_total_withdrawable_amount(total_lp_shares_owned);
        if withdrawable >= total_deposited_collateral {
            withdrawable - total_deposited_collateral
        } else {
            0
        }
    }
}

/// Lender deposit: moves `amount` stable tokens into the pool's book and
/// mints pro-rata shares. On the position's first deposit the entry
/// timestamp is set to `now`. All counter updates are checked; a failure
/// commits nothing.
pub fn deposit_liquidity(
    pool: &mut LendingPool,
    lender: &mut Lender,
    amount: u64,
    now: i64,
) -> (r: Result<u64, Errors>)
    requires
        old(pool).lp_total_supply != 0 ==> old(pool).total_deposited_usdc != 0,
    ensures
        spec_deposit(*old(pool), *old(lender), amount, now) matches Ok(t) ==> r == Ok::<
            u64,
            Errors,
        >(t.2) && *final(pool) == t.0 && *final(lender) == t.1,
        spec_deposit(*old(pool), *old(lender), amount, now) matches Err(e) ==> r == Err::<
            u64,
            Errors,
        >(e) && *final(pool) == *old(pool) && *final(lender) == *old(lender),
        old(pool).no_overdraw() ==> final(pool).no_overdraw(),
        old(pool).supply_deposits_aligned() ==> final(pool).supply_deposits_aligned(),
        final(pool).is_locked == old(pool).is_locked,
        r matches Ok(shares) ==> shares as int == spec_shares_to_mint(
            amount,
            old(pool).lp_total_supply,
            old(pool).total_deposited_usdc,
        ),
{
    if amount == 0 {
        return Err(Errors::NullDepositNotAllowed);
    }
    if pool.is_locked {
        return Err(Errors::PoolLocked);
    }
    let shares = match pool.calculate_shares_to_mint(amount) {
        Ok(s) => s,
        Err(e) => {
            return Err(e);
        },
    };
    let new_deposited = match pool.total_deposited_usdc.checked_add(amount) {
        Some(v) => v,
        None => {
            return Err(Errors::Overflow);
        },
    };
    let new_supply = match pool.lp_total_supply.checked_add(shares) {
        Some(v) => v,
        None => {
            return Err(Errors::Overflow);
        },
    };
    let new_lender_shares = match lender.lp_shares.checked_add(shares) {
        Some(v) => v,
        None => {
            return Err(Errors::Overflow);
        },
    };
    let new_cumulative = match lender.total_deposited.checked_add(amount) {
        Some(v) => v,
        None => {
            return Err(Errors::Overflow);
        },
    };
    if lender.lp_shares == 0 {
        lender.deposited_at = now;
    }
    lender.lp_shares = new_lender_shares;
    lender.total_deposited = new_cumulative;
    pool.total_deposited_usdc = new_deposited;
    pool.lp_total_supply = new_supply;
    Ok(shares)
}

/// Lender withdrawal: burns the position's full share balance and pays out
/// its book value, withholding the early-withdrawal fee for the fee vault
/// when the epoch has not elapsed. Only the position's owner may withdraw.
pub fn withdraw_liquidity(
    pool: &mut LendingPool,
    lender: &mut Lender,
    caller: AccountId,
    now: i64,
) -> (r: Result<WithdrawOutcome, Errors>)
    requires
        old(lender).lp_shares <= old(pool).lp_total_supply,
        old(pool).early_withdrawal_fee_bps <= BPS_DENOMINATOR,
    ensures
        spec_withdraw(*old(pool), *old(lender), caller, now) matches Ok(t) ==> r == Ok::<
            WithdrawOutcome,
            Errors,
        >(t.2) && *final(pool) == t.0 && *final(lender) == t.1,
        spec_withdraw(*old(pool), *old(lender), caller, now) matches Err(e) ==> r == Err::<
            WithdrawOutcome,
            Errors,
        >(e) && *final(pool) == *old(pool) && *final(lender) == *old(lender),
        r matches Ok(out) ==> out.amount_to_lender + out.fee_to_vault == out.total_withdrawable,
        r matches Ok(out) && old(pool).no_overdraw() && out.total_withdrawable <= old(
            pool,
        ).total_deposited_usdc - old(pool).total_borrowed ==> final(pool).no_overdraw(),
        old(pool).supply_deposits_aligned() ==> final(pool).supply_deposits_aligned(),
        final(pool).is_locked == old(pool).is_locked,
        final(pool).total_borrowed == old(pool).total_borrowed,
{
    if caller != lender.owner {
        return Err(Errors::InvalidUser);
    }
    if pool.is_locked {
        return Err(Errors::PoolLocked);
    }
    let shares = lender.lp_shares;
    let withdrawable = pool.get_total_withdrawable_amount(shares);
    proof {
        lemma_withdrawable_bounds(shares, pool.total_deposited_usdc, pool.lp_total_supply);
    }
    let epoch_over = pool.is_withdrawal_epoch_over(lender.deposited_at, now);
    let fee: u64 = if epoch_over {
        0
    } else {
        proof {
            lemma_fee_le_withdrawable(withdrawable as int, pool.early_withdrawal_fee_bps);
        }
        let scaled: u128 = (withdrawable as u128) * (pool.early_withdrawal_fee_bps as u128);
        ((scaled / (BPS_DENOMINATOR as u128)) as u64)
    };
    let paid = withdrawable - fee;
    pool.total_deposited_usdc = pool.total_deposited_usdc - withdrawable;
    pool.lp_total_supply = pool.lp_total_supply - shares;
    lender.lp_shares = 0;
    Ok(
        WithdrawOutcome {
            shares_burned: shares,
            total_withdrawable: withdrawable,
            amount_to_lender: paid,
            fee_to_vault: fee,
        },
    )
}

} // verus!
