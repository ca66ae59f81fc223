//! Market constants and the default market parameters.
use vstd::prelude::*;

use crate::core_error::CoreError;
use crate::fixed::pow10;
use crate::params::{FeeParams, PositionImpactDistributionParams, PriceImpactParams};

verus! {

/// Decimals of usd values and factors.
pub const MARKET_DECIMALS: u8 = 20;

/// Decimals of a market token.
pub const MARKET_TOKEN_DECIMALS: u8 = 8;

/// Unit USD value i.e. `one`.
pub const MARKET_USD_UNIT: u128 = 100_000_000_000_000_000_000;

/// USD value to amount divisor: `10^(MARKET_DECIMALS - MARKET_TOKEN_DECIMALS)`.
pub const MARKET_USD_TO_AMOUNT_DIVISOR: u128 = 1_000_000_000_000;

/// The unit and the divisor agree with the decimals.
pub proof fn lemma_constants()
    ensures
        MARKET_USD_UNIT == pow10(MARKET_DECIMALS as nat),
        MARKET_USD_TO_AMOUNT_DIVISOR == pow10((MARKET_DECIMALS - MARKET_TOKEN_DECIMALS) as nat),
{
    reveal_with_fuel(pow10, 21);
}

/// Kinds of PnL factors.
#[derive(Debug, Clone, Copy, PartialEq, Eq, Structural)]
pub enum PnlFactorKind {
    /// For deposit.
    Deposit,
    /// For withdrawal.
    Withdrawal,
    /// For trading.
    Trader,
}

/// Default swap impact params: exponent 2, positive factor `4 * 10^11`, negative factor `8 * 10^11`.
pub fn swap_impact_params() -> (r: PriceImpactParams)
    ensures
        r.exponent == 2 * MARKET_USD_UNIT,
        r.positive_factor == 400_000_000_000,
        r.negative_factor == 800_000_000_000,
{
    PriceImpactParams {
        exponent: 2 * MARKET_USD_UNIT,
        positive_factor: 400_000_000_000,
        negative_factor: 800_000_000_000,
    }
}

/// Default swap fee params.
pub fn swap_fee_params() -> (r: FeeParams)
    ensures
        r.fee_receiver_factor == 37_000_000_000_000_000_000,
        r.positive_impact_fee_factor == 50_000_000_000_000_000,
        r.negative_impact_fee_factor == 70_000_000_000_000_000,
{
    FeeParams::builder().with_fee_receiver_factor(37_000_000_000_000_000_000).with_positive_impact_fee_factor(
        50_000_000_000_000_000,
    ).with_negative_impact_fee_factor(70_000_000_000_000_000).build()
}

/// Default position impact params: exponent 2, positive factor `9 * 10^9`, negative factor `1.5 * 10^10`.
pub fn position_impact_params() -> (r: PriceImpactParams)
    ensures
        r.exponent == 2 * MARKET_USD_UNIT,
        r.positive_factor == 9_000_000_000,
        r.negative_factor == 15_000_000_000,
{
    PriceImpactParams {
        exponent: 2 * MARKET_USD_UNIT,
        positive_factor: 9_000_000_000,
        negative_factor: 15_000_000_000,
    }
}

/// Default order fee params (the same as the swap fee params).
pub fn order_fee_params() -> (r: FeeParams)
    ensures
        r.fee_receiver_factor == 37_000_000_000_000_000_000,
        r.positive_impact_fee_factor == 50_000_000_000_000_000,
        r.negative_impact_fee_factor == 70_000_000_000_000_000,
{
    FeeParams::builder().with_fee_receiver_factor(37_000_000_000_000_000_000).with_positive_impact_fee_factor(
        50_000_000_000_000_000,
    ).with_negative_impact_fee_factor(70_000_000_000_000_000).build()
}

/// Default position impact distribution params: one unit per second, min pool amount `10^9`.
pub fn position_impact_distribution_params() -> (r: PositionImpactDistributionParams)
    ensures
        r.distribute_factor == MARKET_USD_UNIT,
        r.min_position_impact_pool_amount == 1_000_000_000,
{
    PositionImpactDistributionParams {
        distribute_factor: MARKET_USD_UNIT,
        min_position_impact_pool_amount: 1_000_000_000,
    }
}

/// Default max pnl factor: 60% for deposits, 30% for withdrawals; no other kind is configured.
pub fn max_pnl_factor(kind: PnlFactorKind, _is_long: bool) -> (r: Result<u128, CoreError>)
    ensures
        kind == PnlFactorKind::Deposit ==> r == Ok::<u128, CoreError>(60_000_000_000_000_000_000),
        kind == PnlFactorKind::Withdrawal ==> r == Ok::<u128, CoreError>(30_000_000_000_000_000_000),
        kind == PnlFactorKind::Trader ==> r == Err::<u128, CoreError>(CoreError::InvalidArgument),
{
    match kind {
        PnlFactorKind::Deposit => Ok(60_000_000_000_000_000_000),
        PnlFactorKind::Withdrawal => Ok(30_000_000_000_000_000_000),
        _ => Err(CoreError::InvalidArgument),
    }
}

/// Default max pool amount: one billion units.
pub fn max_pool_amount(_is_long_token: bool) -> (r: u128)
    ensures
        r == 1_000_000_000 * MARKET_USD_UNIT,
{
    1_000_000_000 * MARKET_USD_UNIT
}

/// Check a GT factor: it may not exceed one unit.
pub fn validate_gt_factor(factor: u128) -> (r: Result<(), CoreError>)
    ensures
        r is Ok <==> factor <= MARKET_USD_UNIT,
        r is Err ==> r == Err::<(), CoreError>(CoreError::InvalidArgument),
{
    if factor > MARKET_USD_UNIT {
        Err(CoreError::InvalidArgument)
    } else {
        Ok(())
    }
}

/// Check a lamports transfer: the amount may not be zero.
pub fn validate_transfer_amount(lamports: u64) -> (r: Result<(), CoreError>)
    ensures
        r is Ok <==> lamports != 0,
        r is Err ==> r == Err::<(), CoreError>(CoreError::ZeroAmount),
{
    if lamports == 0 {
        Err(CoreError::ZeroAmount)
    } else {
        Ok(())
    }
}

/// The message suffix for a side.
pub fn get_msg_by_side(is_long: bool) -> (r: &'static str)
    ensures
        is_long ==> r@ == "for long"@,
        !is_long ==> r@ == "for short"@,
{
    if is_long {
        "for long"
    } else {
        "for short"
    }
}

} // verus!
