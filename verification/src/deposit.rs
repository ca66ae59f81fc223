//! The steps of executing a deposit that the store takes itself: distributing the position impact
//! pool first, then pricing the deposit, and finally clearing the deposit's initial amounts.
use vstd::prelude::*;

use crate::distribute::{distribute_spec, DistributePositionImpactReport, PositionImpactMarket};
use crate::error::Error;
use crate::fixed::{pow10, MAX_DECIMALS};
use crate::market::MarketMeta;
use crate::price::Prices;
use crate::price_map::{deposit_prices, DepositPriceError, PriceMap};

verus! {

/// The initial token amounts of a deposit.
#[derive(Debug, Clone, Copy, PartialEq, Eq, Structural)]
pub struct TokenParams {
    /// The amount of initial long tokens.
    pub initial_long_token_amount: u64,
    /// The amount of initial short tokens.
    pub initial_short_token_amount: u64,
}

/// What the deposit action is run with once the store's own steps are done.
#[derive(Debug, Clone, Copy)]
pub struct DepositExecution {
    /// The report of the position impact distribution made first.
    pub distribution: DistributePositionImpactReport,
    /// The long token amount to deposit (after the swaps).
    pub long_amount: u64,
    /// The short token amount to deposit (after the swaps).
    pub short_amount: u64,
    /// The prices the deposit executes at: the max price of each token.
    pub prices: Prices,
}

/// Errors of executing a deposit.
#[derive(Debug, Clone, Copy, PartialEq, Eq, Structural)]
pub enum ExecuteDepositError {
    /// The position impact distribution failed.
    Model(Error),
    /// A token of the market has no price.
    Price(DepositPriceError),
}

/// Whether the prices of the index, long and short tokens of the market are all set.
pub open spec fn has_deposit_prices(map: Map<crate::market::Address, crate::price::Price>, meta: MarketMeta) -> bool {
    map.contains_key(meta.index_token_mint) && map.contains_key(meta.long_token_mint)
        && map.contains_key(meta.short_token_mint)
}

/// Execute a deposit at time `current`: the position impact pool of the market is distributed
/// first, then the deposit is priced with the max price of each token of the market and carried
/// out with the amounts `swapped` that its swaps gave; its initial amounts are then cleared, so it
/// can be removed without transferring any token out. On error nothing changes.
pub fn execute_deposit<const DECIMALS: u8>(
    market: &mut PositionImpactMarket,
    current: i64,
    prices: &PriceMap,
    meta: &MarketMeta,
    swapped: (u64, u64),
    params: &mut TokenParams,
) -> (r: Result<DepositExecution, ExecuteDepositError>)
    requires
        DECIMALS <= MAX_DECIMALS,
        prices.wf(),
    ensures
        match distribute_spec(*old(market), current, pow10(DECIMALS as nat) as int) {
            Err(e) => r == Err::<DepositExecution, ExecuteDepositError>(ExecuteDepositError::Model(e))
                && *final(market) == *old(market) && *final(params) == *old(params),
            Ok((m, report)) => if has_deposit_prices(prices.view(), *meta) {
                r == Ok::<DepositExecution, ExecuteDepositError>(
                    DepositExecution {
                        distribution: report,
                        long_amount: swapped.0,
                        short_amount: swapped.1,
                        prices: Prices {
                            index_token_price: prices.view()[meta.index_token_mint].max,
                            long_token_price: prices.view()[meta.long_token_mint].max,
                            short_token_price: prices.view()[meta.short_token_mint].max,
                        },
                    },
                ) && *final(market) == m && *final(params) == (TokenParams {
                    initial_long_token_amount: 0,
                    initial_short_token_amount: 0,
                })
            } else {
                r == Err::<DepositExecution, ExecuteDepositError>(
                    ExecuteDepositError::Price(DepositPriceError::InvalidArgument),
                ) && *final(market) == *old(market) && *final(params) == *old(params)
            },
        },
{
    let mut m = *market;
    let distribution = match m.distribute_position_impact::<DECIMALS>(current) {
        Err(e) => return Err(ExecuteDepositError::Model(e)),
        Ok(report) => report,
    };
    let deposit = match deposit_prices(prices, meta) {
        Err(e) => return Err(ExecuteDepositError::Price(e)),
        Ok(p) => p,
    };
    *market = m;
    params.initial_long_token_amount = 0;
    params.initial_short_token_amount = 0;
    Ok(DepositExecution { distribution, long_amount: swapped.0, short_amount: swapped.1, prices: deposit })
}

} // verus!
