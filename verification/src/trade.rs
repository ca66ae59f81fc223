//! Trade records: a position's state before and after a trade.
use vstd::prelude::*;

use crate::core_error::CoreError;
use crate::market::{bit_of, get_bit, lemma_bit_set_get, set_bit, with_bit};
use crate::num::{abs_diff_spec, diff};

verus! {

/// The state of a position.
#[derive(Debug, Clone, Copy, PartialEq, Eq, Structural)]
pub struct PositionState {
    /// Trade id of the last trade.
    pub trade_id: u64,
    /// The time of the last increase.
    pub increased_at: i64,
    /// The time of the last decrease.
    pub decreased_at: i64,
    /// Size in tokens.
    pub size_in_tokens: u128,
    /// Collateral amount.
    pub collateral_amount: u128,
    /// Size in usd.
    pub size_in_usd: u128,
    /// Borrowing factor.
    pub borrowing_factor: u128,
    /// Funding fee amount per size.
    pub funding_fee_amount_per_size: u128,
    /// Long token claimable funding amount per size.
    pub long_token_claimable_funding_amount_per_size: u128,
    /// Short token claimable funding amount per size.
    pub short_token_claimable_funding_amount_per_size: u128,
}

/// Trade flags.
#[derive(Debug, Clone, Copy, PartialEq, Eq, Structural)]
pub enum TradeFlag {
    /// Is long.
    IsLong,
    /// Is collateral long.
    IsCollateralLong,
    /// Is increase.
    IsIncrease,
}

/// The bit of a trade flag.
pub open spec fn trade_flag_index(flag: TradeFlag) -> u8 {
    match flag {
        TradeFlag::IsLong => 0,
        TradeFlag::IsCollateralLong => 1,
        TradeFlag::IsIncrease => 2,
    }
}

fn trade_flag_to_index(flag: TradeFlag) -> (r: u8)
    ensures
        r == trade_flag_index(flag),
        r < 8,
{
    match flag {
        TradeFlag::IsLong => 0,
        TradeFlag::IsCollateralLong => 1,
        TradeFlag::IsIncrease => 2,
    }
}

/// Trade data.
#[derive(Debug, Clone, Copy, PartialEq, Eq, Structural)]
pub struct TradeData {
    /// Trade flags.
    pub flags: u8,
    /// Trade id.
    pub trade_id: u64,
    /// Trade ts.
    pub ts: i64,
    /// Trade slot.
    pub slot: u64,
    /// Position state before the trade.
    pub before: PositionState,
    /// Position state after the trade.
    pub after: PositionState,
}

/// The value of a trade flag.
pub open spec fn trade_flag_spec(data: TradeData, flag: TradeFlag) -> bool {
    bit_of(data.flags, trade_flag_index(flag))
}

/// Whether the states before and after form a valid trade.
pub open spec fn trade_valid_spec(data: TradeData) -> Result<(), CoreError> {
    if data.trade_id <= data.before.trade_id {
        Err(CoreError::InvalidTradeID)
    } else if trade_flag_spec(data, TradeFlag::IsIncrease) && data.after.size_in_usd
        < data.before.size_in_usd {
        Err(CoreError::InvalidTradeDeltaSize)
    } else if trade_flag_spec(data, TradeFlag::IsIncrease) && data.after.size_in_tokens
        < data.before.size_in_tokens {
        Err(CoreError::InvalidTradeDeltaTokens)
    } else if !trade_flag_spec(data, TradeFlag::IsIncrease) && data.before.size_in_usd
        < data.after.size_in_usd {
        Err(CoreError::InvalidTradeDeltaSize)
    } else if !trade_flag_spec(data, TradeFlag::IsIncrease) && data.before.size_in_tokens
        < data.after.size_in_tokens {
        Err(CoreError::InvalidTradeDeltaTokens)
    } else if data.after.borrowing_factor < data.before.borrowing_factor {
        Err(CoreError::InvalidBorrowingFactor)
    } else if data.after.funding_fee_amount_per_size < data.before.funding_fee_amount_per_size {
        Err(CoreError::InvalidFundingFactors)
    } else if data.after.long_token_claimable_funding_amount_per_size
        < data.before.long_token_claimable_funding_amount_per_size {
        Err(CoreError::InvalidFundingFactors)
    } else if data.after.short_token_claimable_funding_amount_per_size
        < data.before.short_token_claimable_funding_amount_per_size {
        Err(CoreError::InvalidFundingFactors)
    } else {
        Ok(())
    }
}

impl TradeData {
    /// Set the flags from the three booleans; no other bit is set.
    pub fn set_flags(&mut self, is_long: bool, is_collateral_long: bool, is_increase: bool)
        ensures
            *final(self) == (TradeData { flags: final(self).flags, ..*old(self) }),
            trade_flag_spec(*final(self), TradeFlag::IsLong) == is_long,
            trade_flag_spec(*final(self), TradeFlag::IsCollateralLong) == is_collateral_long,
            trade_flag_spec(*final(self), TradeFlag::IsIncrease) == is_increase,
    {
        let f0 = set_bit(0, 0, is_long);
        let f1 = set_bit(f0, 1, is_collateral_long);
        let f2 = set_bit(f1, 2, is_increase);
        proof {
            lemma_bit_set_get(0, 0, 0, is_long);
            lemma_bit_set_get(f0, 1, 0, is_collateral_long);
            lemma_bit_set_get(f0, 1, 1, is_collateral_long);
            lemma_bit_set_get(f1, 2, 0, is_increase);
            lemma_bit_set_get(f1, 2, 1, is_increase);
            lemma_bit_set_get(f1, 2, 2, is_increase);
        }
        self.flags = f2;
    }

    /// Get the value of a flag.
    pub fn get_flag(&self, flag: TradeFlag) -> (r: bool)
        ensures
            r == trade_flag_spec(*self, flag),
    {
        get_bit(self.flags, trade_flag_to_index(flag))
    }

    /// Return whether the position side is long.
    pub fn is_long(&self) -> (r: bool)
        ensures
            r == trade_flag_spec(*self, TradeFlag::IsLong),
    {
        self.get_flag(TradeFlag::IsLong)
    }

    /// Return whether the collateral side is long.
    pub fn is_collateral_long(&self) -> (r: bool)
        ensures
            r == trade_flag_spec(*self, TradeFlag::IsCollateralLong),
    {
        self.get_flag(TradeFlag::IsCollateralLong)
    }

    /// Return whether the trade is caused by an increase order.
    pub fn is_increase(&self) -> (r: bool)
        ensures
            r == trade_flag_spec(*self, TradeFlag::IsIncrease),
    {
        self.get_flag(TradeFlag::IsIncrease)
    }

    /// Updated at: the later of the last increase and the last decrease after the trade.
    pub fn updated_at(&self) -> (r: i64)
        ensures
            r == if self.after.increased_at >= self.after.decreased_at {
                self.after.increased_at
            } else {
                self.after.decreased_at
            },
    {
        if self.after.increased_at >= self.after.decreased_at {
            self.after.increased_at
        } else {
            self.after.decreased_at
        }
    }

    /// Delta size in usd.
    pub fn delta_size_in_usd(&self) -> (r: u128)
        ensures
            r == abs_diff_spec(self.after.size_in_usd as int, self.before.size_in_usd as int),
    {
        diff(self.after.size_in_usd, self.before.size_in_usd)
    }

    /// Delta size in tokens.
    pub fn delta_size_in_tokens(&self) -> (r: u128)
        ensures
            r == abs_diff_spec(self.after.size_in_tokens as int, self.before.size_in_tokens as int),
    {
        diff(self.after.size_in_tokens, self.before.size_in_tokens)
    }

    /// Delta collateral amount.
    pub fn delta_collateral_amount(&self) -> (r: u128)
        ensures
            r == abs_diff_spec(self.after.collateral_amount as int, self.before.collateral_amount as int),
    {
        diff(self.after.collateral_amount, self.before.collateral_amount)
    }

    /// Delta borrowing factor.
    pub fn delta_borrowing_factor(&self) -> (r: u128)
        ensures
            r == abs_diff_spec(self.after.borrowing_factor as int, self.before.borrowing_factor as int),
    {
        diff(self.after.borrowing_factor, self.before.borrowing_factor)
    }

    /// Delta funding fee amount per size.
    pub fn delta_funding_fee_amount_per_size(&self) -> (r: u128)
        ensures
            r == abs_diff_spec(
                self.after.funding_fee_amount_per_size as int,
                self.before.funding_fee_amount_per_size as int,
            ),
    {
        diff(self.after.funding_fee_amount_per_size, self.before.funding_fee_amount_per_size)
    }

    /// Funding fee: the delta funding fee amount per size times the size in usd before, saturating.
    pub fn funding_fee(&self) -> (r: u128)
        ensures
            ({
                let p = abs_diff_spec(
                    self.after.funding_fee_amount_per_size as int,
                    self.before.funding_fee_amount_per_size as int,
                ) * self.before.size_in_usd;
                r == if p > u128::MAX {
                    u128::MAX
                } else {
                    p as u128
                }
            }),
    {
        match self.delta_funding_fee_amount_per_size().checked_mul(self.before.size_in_usd) {
            None => u128::MAX,
            Some(v) => v,
        }
    }

    /// Delta claimable amount per size for the given side.
    pub fn delta_claimable_funding_amount_per_size(&self, is_long_token: bool) -> (r: u128)
        ensures
            is_long_token ==> r == abs_diff_spec(
                self.after.long_token_claimable_funding_amount_per_size as int,
                self.before.long_token_claimable_funding_amount_per_size as int,
            ),
            !is_long_token ==> r == abs_diff_spec(
                self.after.short_token_claimable_funding_amount_per_size as int,
                self.before.short_token_claimable_funding_amount_per_size as int,
            ),
    {
        if is_long_token {
            diff(
                self.after.long_token_claimable_funding_amount_per_size,
                self.before.long_token_claimable_funding_amount_per_size,
            )
        } else {
            diff(
                self.after.short_token_claimable_funding_amount_per_size,
                self.before.short_token_claimable_funding_amount_per_size,
            )
        }
    }

    /// Validate the trade: a new trade id; the size grows for an increase and shrinks for a
    /// decrease; the borrowing and funding factors never go down.
    pub fn validate(&self) -> (r: Result<(), CoreError>)
        ensures
            r == trade_valid_spec(*self),
    {
        if self.trade_id <= self.before.trade_id {
            return Err(CoreError::InvalidTradeID);
        }
        if self.is_increase() {
            if self.after.size_in_usd < self.before.size_in_usd {
                return Err(CoreError::InvalidTradeDeltaSize);
            }
            if self.after.size_in_tokens < self.before.size_in_tokens {
                return Err(CoreError::InvalidTradeDeltaTokens);
            }
        } else {
            if self.before.size_in_usd < self.after.size_in_usd {
                return Err(CoreError::InvalidTradeDeltaSize);
            }
            if self.before.size_in_tokens < self.after.size_in_tokens {
                return Err(CoreError::InvalidTradeDeltaTokens);
            }
        }
        if self.after.borrowing_factor < self.before.borrowing_factor {
            return Err(CoreError::InvalidBorrowingFactor);
        }
        if self.after.funding_fee_amount_per_size < self.before.funding_fee_amount_per_size {
            return Err(CoreError::InvalidFundingFactors);
        }
        if self.after.long_token_claimable_funding_amount_per_size
            < self.before.long_token_claimable_funding_amount_per_size {
            return Err(CoreError::InvalidFundingFactors);
        }
        if self.after.short_token_claimable_funding_amount_per_size
            < self.before.short_token_claimable_funding_amount_per_size {
            return Err(CoreError::InvalidFundingFactors);
        }
        Ok(())
    }

    /// Update with new position state: the trade id and the state after become the new state's,
    /// then the trade is validated.
    pub fn update_with_state(&mut self, new_state: &PositionState) -> (r: Result<(), CoreError>)
        ensures
            *final(self) == (TradeData { trade_id: new_state.trade_id, after: *new_state, ..*old(self) }),
            r == trade_valid_spec(*final(self)),
    {
        self.trade_id = new_state.trade_id;
        self.after = *new_state;
        self.validate()
    }
}

/// A valid increase never shrinks the position, and a valid decrease never grows it; the size
/// delta is then the plain difference.
pub proof fn lemma_valid_trade_delta(data: TradeData)
    requires
        trade_valid_spec(data) is Ok,
    ensures
        trade_flag_spec(data, TradeFlag::IsIncrease) ==> abs_diff_spec(
            data.after.size_in_usd as int,
            data.before.size_in_usd as int,
        ) == data.after.size_in_usd - data.before.size_in_usd,
        !trade_flag_spec(data, TradeFlag::IsIncrease) ==> abs_diff_spec(
            data.after.size_in_usd as int,
            data.before.size_in_usd as int,
        ) == data.before.size_in_usd - data.after.size_in_usd,
        data.trade_id > data.before.trade_id,
{
}

/// A trade is accepted exactly when it has a new trade id, its size moves the way the trade goes
/// (up for an increase, down for a decrease, in usd and in tokens), and neither the borrowing
/// factor nor any funding factor goes down. When the id and sizes are right and the borrowing
/// factor went down, the trade is refused for its borrowing factor.
pub proof fn lemma_trade_validation(data: TradeData)
    ensures
        ({
            let increase = trade_flag_spec(data, TradeFlag::IsIncrease);
            let b = data.before;
            let a = data.after;
            let sizes_ok = if increase {
                a.size_in_usd >= b.size_in_usd && a.size_in_tokens >= b.size_in_tokens
            } else {
                a.size_in_usd <= b.size_in_usd && a.size_in_tokens <= b.size_in_tokens
            };
            let factors_ok = a.borrowing_factor >= b.borrowing_factor && a.funding_fee_amount_per_size
                >= b.funding_fee_amount_per_size && a.long_token_claimable_funding_amount_per_size
                >= b.long_token_claimable_funding_amount_per_size
                && a.short_token_claimable_funding_amount_per_size
                >= b.short_token_claimable_funding_amount_per_size;
            &&& trade_valid_spec(data) is Ok <==> (data.trade_id > b.trade_id && sizes_ok && factors_ok)
            &&& data.trade_id > b.trade_id && sizes_ok && a.borrowing_factor < b.borrowing_factor
                ==> trade_valid_spec(data) == Err::<(), CoreError>(CoreError::InvalidBorrowingFactor)
            &&& data.trade_id > b.trade_id && sizes_ok && a.borrowing_factor >= b.borrowing_factor && !factors_ok
                ==> trade_valid_spec(data) == Err::<(), CoreError>(CoreError::InvalidFundingFactors)
            &&& data.trade_id <= b.trade_id ==> trade_valid_spec(data) == Err::<(), CoreError>(
                CoreError::InvalidTradeID,
            )
        }),
{
}

} // verus!
