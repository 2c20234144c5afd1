use vstd::prelude::*;

use crate::errors::Errors;
use crate::oracle::{spec_quote_is_fresh, spec_quote_is_usable, PriceQuote, ORACLE_MAX_AGE};
use crate::pool::BPS_DENOMINATOR;

verus! {

/// Grams per troy ounce, scaled by 10^6 (31.103476 g/ozt).
pub const GRAMS_PER_TROY_OUNCE_SCALED: u64 = 31_103_476;

/// Scale factor carried by weights (grams x 10^6) and by the per-gram price.
pub const MICRO_SCALE: u64 = 1_000_000;

/// Per-gram price derived from a per-troy-ounce quote, keeping the quote's
/// own scale and adding a 10^6 factor to preserve precision:
/// `price * 10^6 / 31_103_476`, truncating.
pub open spec fn spec_price_per_gram_scaled(price: i64) -> int {
    price as int * MICRO_SCALE as int / GRAMS_PER_TROY_OUNCE_SCALED as int
}

/// Gross collateral value of a gold asset:
/// `weight * price_per_gram * purity / 10_000 / 10^6`, truncating at each
/// division. The purity divisor removes the bps scale; the second divisor
/// removes the weight's 10^6 scale.
pub open spec fn spec_collateral_value(weight: u64, ppg: int, purity: u16) -> int {
    weight as int * ppg * purity as int / BPS_DENOMINATOR as int / MICRO_SCALE as int
}

/// The 128-bit intermediate of the collateral-value product stays
/// representable.
pub open spec fn spec_collateral_mul_fits(weight: u64, ppg: int, purity: u16) -> bool {
    weight as int * ppg * purity as int <= u128::MAX as int
}

/// Borrowable fraction of a collateral value: `value * ltv / 10_000`,
/// truncating.
pub open spec fn spec_borrowable_value(value: u64, ltv_bps: u16) -> int {
    value as int * ltv_bps as int / BPS_DENOMINATOR as int
}

/// Converts a per-troy-ounce quote into the scaled per-gram price. Rejects
/// quotes with a non-positive price or a non-negative exponent.
pub fn calculate_price_per_gram_scaled(price: i64, exponent: i32) -> (r: Result<u64, Errors>)
    ensures
        r is Err <==> !(price > 0 && exponent < 0),
        r is Err ==> r == Err::<u64, Errors>(Errors::InvalidPrice),
        r matches Ok(p) ==> p == spec_price_per_gram_scaled(price),
{
    if price <= 0 || exponent >= 0 {
        return Err(Errors::InvalidPrice);
    }
    proof {
        vstd::arithmetic::mul::lemma_mul_upper_bound(
            price as int,
            i64::MAX as int,
            MICRO_SCALE as int,
            MICRO_SCALE as int,
        );
        vstd::arithmetic::div_mod::lemma_div_is_ordered(
            price as int * MICRO_SCALE as int,
            i64::MAX as int * MICRO_SCALE as int,
            GRAMS_PER_TROY_OUNCE_SCALED as int,
        );
    }
    let scaled: u128 = (price as u128) * (MICRO_SCALE as u128);
    let per_gram: u128 = scaled / (GRAMS_PER_TROY_OUNCE_SCALED as u128);
    Ok(per_gram as u64)
}

/// Gross value of a gold asset at a scaled per-gram price. Fails only when a
/// 128-bit intermediate or the 64-bit result would overflow.
pub fn calculate_asset_value_at_price(weight: u64, ppg: u64, purity: u16) -> (r: Result<
    u64,
    Errors,
>)
    ensures
        r is Err <==> !(spec_collateral_mul_fits(weight, ppg as int, purity)
            && spec_collateral_value(weight, ppg as int, purity) <= u64::MAX as int),
        r is Err ==> r == Err::<u64, Errors>(Errors::Overflow),
        r matches Ok(v) ==> v == spec_collateral_value(weight, ppg as int, purity),
{
    proof {
        vstd::arithmetic::mul::lemma_mul_upper_bound(
            weight as int,
            u64::MAX as int,
            ppg as int,
            u64::MAX as int,
        );
    }
    let weight_price: u128 = (weight as u128) * (ppg as u128);
    let product: u128 = match weight_price.checked_mul(purity as u128) {
        Some(p) => p,
        None => {
            return Err(Errors::Overflow);
        },
    };
    let value: u128 = product / (BPS_DENOMINATOR as u128) / (MICRO_SCALE as u128);
    if value > u64::MAX as u128 {
        return Err(Errors::Overflow);
    }
    Ok(value as u64)
}

/// Gross collateral value priced from an oracle quote: checks freshness and
/// usability of the quote, then runs the pricing pipeline on the asset's
/// physical parameters.
pub fn calculate_value_of_the_asset(quote: &PriceQuote, now: i64, weight: u64, purity: u16) -> (r:
    Result<u64, Errors>)
    ensures
        !spec_quote_is_fresh(*quote, now, ORACLE_MAX_AGE) <==> r == Err::<u64, Errors>(
            Errors::StaleOracle,
        ),
        spec_quote_is_fresh(*quote, now, ORACLE_MAX_AGE) && !spec_quote_is_usable(*quote) <==> r
            == Err::<u64, Errors>(Errors::InvalidPrice),
        r matches Ok(v) ==> v == spec_collateral_value(
            weight,
            spec_price_per_gram_scaled(quote.price),
            purity,
        ),
        r is Ok <==> spec_quote_is_fresh(*quote, now, ORACLE_MAX_AGE) && spec_quote_is_usable(
            *quote,
        ) && spec_collateral_mul_fits(weight, spec_price_per_gram_scaled(quote.price), purity)
            && spec_collateral_value(weight, spec_price_per_gram_scaled(quote.price), purity)
            <= u64::MAX as int,
        spec_quote_is_fresh(*quote, now, ORACLE_MAX_AGE) && spec_quote_is_usable(*quote) && r
            is Err ==> r == Err::<u64, Errors>(Errors::Overflow),
{
    let age: i128 = (now as i128) - (quote.publish_time as i128);
    if age > ORACLE_MAX_AGE as i128 {
        return Err(Errors::StaleOracle);
    }
    let ppg = calculate_price_per_gram_scaled(quote.price, quote.exponent)?;
    calculate_asset_value_at_price(weight, ppg, purity)
}

/// Borrowable fraction of a collateral value under the pool's loan-to-value
/// bound. Fails only when the result does not fit `u64`.
pub fn calculate_borrowable_value(value: u64, ltv_bps: u16) -> (r: Result<u64, Errors>)
    ensures
        r is Err <==> spec_borrowable_value(value, ltv_bps) > u64::MAX as int,
        r is Err ==> r == Err::<u64, Errors>(Errors::Overflow),
        r matches Ok(b) ==> b == spec_borrowable_value(value, ltv_bps),
{
    proof {
        vstd::arithmetic::mul::lemma_mul_upper_bound(
            value as int,
            u64::MAX as int,
            ltv_bps as int,
            u16::MAX as int,
        );
    }
    let scaled: u128 = (value as u128) * (ltv_bps as u128);
    let borrowable: u128 = scaled / (BPS_DENOMINATOR as u128);
    if borrowable > u64::MAX as u128 {
        return Err(Errors::Overflow);
    }
    Ok(borrowable as u64)
}

/// Maximum draw against a gold asset priced from an oracle quote: the gross
/// value of the asset scaled down by the loan-to-value bound.
pub fn calculate_borrowable_value_of_the_asset(
    quote: &PriceQuote,
    now: i64,
    weight: u64,
    purity: u16,
    ltv_bps: u16,
) -> (r: Result<u64, Errors>)
    ensures
        !spec_quote_is_fresh(*quote, now, ORACLE_MAX_AGE) <==> r == Err::<u64, Errors>(
            Errors::StaleOracle,
        ),
        spec_quote_is_fresh(*quote, now, ORACLE_MAX_AGE) && !spec_quote_is_usable(*quote) <==> r
            == Err::<u64, Errors>(Errors::InvalidPrice),
        r matches Ok(b) ==> b == spec_borrowable_value_of_asset(*quote, weight, purity, ltv_bps),
        r is Ok <==> spec_quote_is_fresh(*quote, now, ORACLE_MAX_AGE) && spec_quote_is_usable(
            *quote,
        ) && spec_asset_pricing_fits(*quote, weight, purity, ltv_bps),
{
    let value = calculate_value_of_the_asset(quote, now, weight, purity)?;
    calculate_borrowable_value(value, ltv_bps)
}

/// Gross collateral value of an asset under a quote, as one spec-level
/// formula.
pub open spec fn spec_value_of_asset(quote: PriceQuote, weight: u64, purity: u16) -> int {
    spec_collateral_value(weight, spec_price_per_gram_scaled(quote.price), purity)
}

/// Borrowable value of an asset under a quote, as one spec-level formula.
pub open spec fn spec_borrowable_value_of_asset(
    quote: PriceQuote,
    weight: u64,
    purity: u16,
    ltv_bps: u16,
) -> int {
    spec_value_of_asset(quote, weight, purity) * ltv_bps as int / BPS_DENOMINATOR as int
}

/// Every intermediate of the pricing pipeline stays representable.
pub open spec fn spec_asset_pricing_fits(
    quote: PriceQuote,
    weight: u64,
    purity: u16,
    ltv_bps: u16,
) -> bool {
    &&& spec_collateral_mul_fits(weight, spec_price_per_gram_scaled(quote.price), purity)
    &&& spec_value_of_asset(quote, weight, purity) <= u64::MAX as int
    &&& spec_borrowable_value_of_asset(quote, weight, purity, ltv_bps) <= u64::MAX as int
}

} // verus!
