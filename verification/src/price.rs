//! Token prices.
use vstd::prelude::*;

use crate::error::Error;

verus! {

/// A price range of a token.
#[derive(Debug, Clone, Copy, PartialEq, Eq, Structural)]
pub struct Price {
    /// Min price.
    pub min: u128,
    /// Max price.
    pub max: u128,
}

impl Price {
    /// A price whose min and max are the same.
    pub fn exact(price: u128) -> (r: Price)
        ensures
            r.min == price,
            r.max == price,
    {
        Price { min: price, max: price }
    }

    /// Whether either bound is zero.
    pub fn has_zero(&self) -> (r: bool)
        ensures
            r == (self.min == 0 || self.max == 0),
    {
        self.min == 0 || self.max == 0
    }

    /// The max price when `maximize`, otherwise the min price.
    pub fn pick_price(&self, maximize: bool) -> (r: &u128)
        ensures
            *r == if maximize { self.max } else { self.min },
    {
        if maximize {
            &self.max
        } else {
            &self.min
        }
    }
}

/// Prices of the tokens of a market, in usd per smallest unit of each token.
#[derive(Debug, Clone, Copy, PartialEq, Eq, Structural)]
pub struct Prices {
    /// Index token price.
    pub index_token_price: u128,
    /// Long token price.
    pub long_token_price: u128,
    /// Short token price.
    pub short_token_price: u128,
}

/// Whether all prices are non-zero.
pub open spec fn prices_valid(prices: Prices) -> bool {
    prices.index_token_price != 0 && prices.long_token_price != 0 && prices.short_token_price != 0
}

impl Prices {
    /// Validate the prices: none of them may be zero.
    pub fn validate(&self) -> (r: Result<(), Error>)
        ensures
            r is Ok <==> prices_valid(*self),
            r is Err ==> r == Err::<(), Error>(Error::InvalidPrices),
    {
        if self.index_token_price == 0 || self.long_token_price == 0 || self.short_token_price == 0 {
            Err(Error::InvalidPrices)
        } else {
            Ok(())
        }
    }
}

} // verus!
