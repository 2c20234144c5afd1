use vstd::prelude::*;

use crate::errors::Errors;
use crate::registry::AdminRegistry;
use crate::AccountId;

verus! {

/// Staleness bound, in seconds, applied to oracle quotes by the borrow
/// pipeline.
pub const ORACLE_MAX_AGE: i64 = 100;

/// One oracle observation: gold price per troy ounce, its decimal exponent
/// (negative by construction for a usable quote), and when it was published.
/// Both oracle backends—the admin-written mock and a live feed read by the
/// host—are consumed through this one shape.
#[derive(Clone, Copy, Debug, PartialEq, Eq, Structural)]
pub struct PriceQuote {
    pub price: i64,
    pub exponent: i32,
    pub publish_time: i64,
}

/// A quote no older than `max_age` seconds at time `now`.
pub open spec fn spec_quote_is_fresh(quote: PriceQuote, now: i64, max_age: i64) -> bool {
    now as int - quote.publish_time as int <= max_age as int
}

/// A quote the pricing pipeline can use at all: positive price, negative
/// exponent.
pub open spec fn spec_quote_is_usable(quote: PriceQuote) -> bool {
    quote.price > 0 && quote.exponent < 0
}

/// Admin-written price record backing the mock oracle. It answers reads
/// under the same contract as a live feed: a quote and its publish time.
pub struct MockOracleState {
    pub price: i64,
    pub exponent: i32,
    pub last_updated: i64,
}

impl MockOracleState {
    /// An unwritten oracle record. Its zero price keeps every read unusable
    /// until an admin writes a real value.
    pub fn new() -> (r: MockOracleState)
        ensures
            (r == MockOracleState { price: 0i64, exponent: 0i32, last_updated: 0i64 }),
    {
        MockOracleState { price: 0, exponent: 0, last_updated: 0 }
    }

    /// Writes the mock price. Allowed to registered admins only.
    pub fn update_price_mock_oracle(
        &mut self,
        registry: &AdminRegistry,
        caller: AccountId,
        price: i64,
        exponent: i32,
        now: i64,
    ) -> (r: Result<(), Errors>)
        ensures
            r is Ok <==> registry.spec_is_admin(caller),
            r is Err ==> r == Err::<(), Errors>(Errors::OnlyAdmin) && *final(self) == *old(self),
            r is Ok ==> *final(self) == (MockOracleState { price, exponent, last_updated: now }),
    {
        if !registry.is_admin(caller) {
            return Err(Errors::OnlyAdmin);
        }
        self.price = price;
        self.exponent = exponent;
        self.last_updated = now;
        Ok(())
    }

    /// Reads the stored price: `StaleOracle` when the record is older than
    /// `max_age` seconds, `InvalidPrice` when the stored price is not
    /// positive.
    pub fn get_price_no_older_than(&self, now: i64, max_age: i64) -> (r: Result<(i64, i32), Errors>)
        ensures
            r is Ok <==> spec_quote_is_fresh(self.to_quote(), now, max_age) && self.price > 0,
            !spec_quote_is_fresh(self.to_quote(), now, max_age) ==> r == Err::<(i64, i32), Errors>(
                Errors::StaleOracle,
            ),
            spec_quote_is_fresh(self.to_quote(), now, max_age) && self.price <= 0 ==> r == Err::<
                (i64, i32),
                Errors,
            >(Errors::InvalidPrice),
            r matches Ok(q) ==> q == (self.price, self.exponent),
    {
        let age: i128 = (now as i128) - (self.last_updated as i128);
        if age > max_age as i128 {
            return Err(Errors::StaleOracle);
        }
        if self.price <= 0 {
            return Err(Errors::InvalidPrice);
        }
        Ok((self.price, self.exponent))
    }

    /// The stored observation as a quote for the pricing pipeline.
    pub open spec fn to_quote(self) -> PriceQuote {
        PriceQuote { price: self.price, exponent: self.exponent, publish_time: self.last_updated }
    }

    /// Exec counterpart of [`Self::to_quote`].
    pub fn quote(&self) -> (r: PriceQuote)
        ensures
            r == self.to_quote(),
    {
        PriceQuote { price: self.price, exponent: self.exponent, publish_time: self.last_updated }
    }
}

} // verus!
