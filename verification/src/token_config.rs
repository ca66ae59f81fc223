//! The configuration of a token: its price feed, heartbeat, decimals and price precision.
use vstd::prelude::*;

use crate::market::Address;

verus! {

/// The configuration of a token.
#[derive(Debug, Clone, Copy, PartialEq, Eq, Structural)]
pub struct TokenConfig {
    /// Bump.
    pub bump: u8,
    /// The address of the price feed.
    pub price_feed: Address,
    /// Heartbeat duration.
    pub heartbeat_duration: u32,
    /// Token decimals.
    pub token_decimals: u8,
    /// Precision.
    pub precision: u8,
}

impl TokenConfig {
    /// Initialize every field.
    pub fn init(&mut self, bump: u8, price_feed: Address, heartbeat_duration: u32, token_decimals: u8, precision: u8)
        ensures
            *final(self) == (TokenConfig { bump, price_feed, heartbeat_duration, token_decimals, precision }),
    {
        self.bump = bump;
        self.price_feed = price_feed;
        self.heartbeat_duration = heartbeat_duration;
        self.token_decimals = token_decimals;
        self.precision = precision;
    }

    /// Update the fields that are given; the others stay as they were.
    pub fn update(&mut self, price_feed: Option<Address>, token_decimals: Option<u8>, precision: Option<u8>)
        ensures
            final(self).bump == old(self).bump,
            final(self).heartbeat_duration == old(self).heartbeat_duration,
            final(self).price_feed == match price_feed {
                Some(f) => f,
                None => old(self).price_feed,
            },
            final(self).token_decimals == match token_decimals {
                Some(d) => d,
                None => old(self).token_decimals,
            },
            final(self).precision == match precision {
                Some(p) => p,
                None => old(self).precision,
            },
    {
        if let Some(price_feed) = price_feed {
            self.price_feed = price_feed;
        }
        if let Some(token_decimals) = token_decimals {
            self.token_decimals = token_decimals;
        }
        if let Some(precision) = precision {
            self.precision = precision;
        }
    }
}

} // verus!
