use meridian_protocol::errors::Errors;
use meridian_protocol::oracle::PriceQuote;
use meridian_protocol::valuation::{
    calculate_borrowable_value, calculate_borrowable_value_of_the_asset,
    calculate_price_per_gram_scaled, calculate_value_of_the_asset,
};

#[test]
fn price_per_gram_divides_out_the_troy_ounce() {
    // A per-ounce price equal to the grams-per-ounce constant prices a gram
    // at exactly one unit of the 10^6 scale.
    assert_eq!(calculate_price_per_gram_scaled(31_103_476, -8), Ok(1_000_000));
    // Gold at 2_000 * 10^8 per troy ounce, exponent -8.
    assert_eq!(
        calculate_price_per_gram_scaled(200_000_000_000, -8),
        Ok(6_430_149_479)
    );
}

#[test]
fn non_positive_price_is_invalid() {
    assert_eq!(calculate_price_per_gram_scaled(0, -8), Err(Errors::InvalidPrice));
    assert_eq!(calculate_price_per_gram_scaled(-5, -8), Err(Errors::InvalidPrice));
}

#[test]
fn non_negative_exponent_is_invalid() {
    assert_eq!(calculate_price_per_gram_scaled(100, 0), Err(Errors::InvalidPrice));
    assert_eq!(calculate_price_per_gram_scaled(100, 3), Err(Errors::InvalidPrice));
}

#[test]
fn asset_value_follows_the_pipeline() {
    let quote = PriceQuote { price: 200_000_000_000, exponent: -8, publish_time: 1_000 };
    // 100 g (scaled by 10^6) at purity 9999 bps.
    assert_eq!(
        calculate_value_of_the_asset(&quote, 1_000, 100_000_000, 9999),
        Ok(642_950_646_405)
    );
    assert_eq!(
        calculate_borrowable_value_of_the_asset(&quote, 1_000, 100_000_000, 9999, 5000),
        Ok(321_475_323_202)
    );
}

#[test]
fn stale_quote_is_rejected_before_pricing() {
    let quote = PriceQuote { price: 200_000_000_000, exponent: -8, publish_time: 1_000 };
    assert_eq!(
        calculate_value_of_the_asset(&quote, 1_101, 100_000_000, 9999),
        Err(Errors::StaleOracle)
    );
    // Exactly at the bound the quote is still fresh.
    assert!(calculate_value_of_the_asset(&quote, 1_100, 100_000_000, 9999).is_ok());
}

#[test]
fn unusable_quote_is_rejected_after_staleness() {
    let quote = PriceQuote { price: -1, exponent: -8, publish_time: 1_000 };
    assert_eq!(
        calculate_value_of_the_asset(&quote, 1_000, 100_000_000, 9999),
        Err(Errors::InvalidPrice)
    );
    let stale_and_invalid = PriceQuote { price: -1, exponent: -8, publish_time: 0 };
    assert_eq!(
        calculate_value_of_the_asset(&stale_and_invalid, 1_000, 100_000_000, 9999),
        Err(Errors::StaleOracle)
    );
}

#[test]
fn purity_scales_the_value_linearly() {
    let quote = PriceQuote { price: 31_103_476, exponent: -8, publish_time: 0 };
    // ppg = 10^6; 80 g-units at full purity are worth exactly 80.
    assert_eq!(calculate_value_of_the_asset(&quote, 0, 80, 10_000), Ok(80));
    assert_eq!(calculate_value_of_the_asset(&quote, 0, 80, 5_000), Ok(40));
}

#[test]
fn borrowable_value_truncates() {
    assert_eq!(calculate_borrowable_value(99_990_000, 5000), Ok(49_995_000));
    assert_eq!(calculate_borrowable_value(1, 5000), Ok(0));
}

#[test]
fn oversized_pipeline_reports_overflow() {
    let quote = PriceQuote { price: i64::MAX, exponent: -8, publish_time: 0 };
    assert_eq!(
        calculate_value_of_the_asset(&quote, 0, u64::MAX, 10_000),
        Err(Errors::Overflow)
    );
}
