//! Errors of the store program's state logic.
use vstd::prelude::*;

verus! {

/// Error codes of the store program.
#[derive(Debug, Clone, Copy, PartialEq, Eq, Structural)]
pub enum CoreError {
    /// Invalid argument.
    InvalidArgument,
    /// Invalid collateral token.
    InvalidCollateralToken,
    /// Amount overflow.
    AmountOverflow,
    /// Token amount overflow.
    TokenAmountOverflow,
    /// The market is not managed by the given store.
    InvalidMarket,
    /// The market is disabled.
    DisabledMarket,
    /// Preconditions are not met.
    PreconditionsAreNotMet,
    /// Max price age exceeded.
    MaxPriceAgeExceeded,
    /// Max price timestamp exceeded.
    MaxPriceTimestampExceeded,
    /// Invalid oracle timestamps range.
    InvalidOracleTimestampsRange,
    /// Max oracle timestamps range exceeded.
    MaxOracleTimestampsRangeExceeded,
    /// Oracle timestamps are smaller than required.
    OracleTimestampsAreSmallerThanRequired,
    /// Oracle timestamps are larger than required.
    OracleTimestampsAreLargerThanRequired,
    /// Oracle not updated.
    OracleNotUpdated,
    /// Invalid oracle slot.
    InvalidOracleSlot,
    /// Invalid price feed price.
    InvalidPriceFeedPrice,
    /// Price feed not updated.
    PriceFeedNotUpdated,
    /// Invalid trade ID.
    InvalidTradeID,
    /// Invalid trade delta size.
    InvalidTradeDeltaSize,
    /// Invalid trade delta tokens.
    InvalidTradeDeltaTokens,
    /// Invalid borrowing factor.
    InvalidBorrowingFactor,
    /// Invalid funding factors.
    InvalidFundingFactors,
    /// Unknown provider index.
    InvalidProviderKindIndex,
    /// Not enough feeds.
    NotEnoughFeeds,
    /// The transferring amount is zero.
    ZeroAmount,
}

} // verus!
