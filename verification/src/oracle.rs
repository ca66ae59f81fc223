//! Oracle price checks: price age, timestamp ranges and conversions of feed prices.
use vstd::prelude::*;

use crate::core_error::CoreError;
use crate::fixed::pow10;

verus! {

/// `a + b` for an `i64` and a `u64`, clamped to `i64::MAX`.
pub open spec fn saturating_add_unsigned_spec(a: i64, b: u64) -> i64 {
    if a + b > i64::MAX {
        i64::MAX
    } else {
        (a + b) as i64
    }
}

fn saturating_add_unsigned(a: i64, b: u64) -> (r: i64)
    ensures
        r == saturating_add_unsigned_spec(a, b),
{
    match a.checked_add_unsigned(b) {
        Some(v) => v,
        None => i64::MAX,
    }
}

/// Price Validator: checks the age of each price and collects the range of their timestamps
/// and the smallest slot.
#[derive(Debug, Clone, Copy, PartialEq, Eq, Structural)]
pub struct PriceValidator {
    /// The current unix timestamp.
    pub current_ts: i64,
    /// Max age of a price, in seconds.
    pub max_age: u64,
    /// Max distance between the oldest and the newest price timestamps.
    pub max_oracle_timestamp_range: u64,
    /// How far in the future a price timestamp may be.
    pub max_future_timestamp_excess: u64,
    /// The smallest validated timestamp.
    pub min_oracle_ts: i64,
    /// The largest validated timestamp.
    pub max_oracle_ts: i64,
    /// The smallest validated slot.
    pub min_oracle_slot: Option<u64>,
}

/// The smaller of two optional slots, ignoring absent ones.
pub open spec fn merge_slot(a: Option<u64>, b: Option<u64>) -> Option<u64> {
    match (a, b) {
        (Some(x), Some(y)) => Some(if x <= y { x } else { y }),
        (None, Some(s)) => Some(s),
        (Some(s), None) => Some(s),
        (None, None) => None,
    }
}

/// The validator after merging a range.
pub open spec fn merge_range_spec(v: PriceValidator, slot: Option<u64>, min_ts: i64, max_ts: i64) -> PriceValidator {
    PriceValidator {
        min_oracle_slot: merge_slot(v.min_oracle_slot, slot),
        min_oracle_ts: if v.min_oracle_ts <= min_ts {
            v.min_oracle_ts
        } else {
            min_ts
        },
        max_oracle_ts: if v.max_oracle_ts >= max_ts {
            v.max_oracle_ts
        } else {
            max_ts
        },
        ..v
    }
}

/// The validator after validating one price, or the error.
pub open spec fn validate_one_spec(
    v: PriceValidator,
    timestamp_adjustment: u64,
    oracle_ts: i64,
    oracle_slot: u64,
) -> Result<PriceValidator, CoreError> {
    let ts = oracle_ts - timestamp_adjustment;
    if ts < i64::MIN {
        Err(CoreError::TokenAmountOverflow)
    } else if ts + v.max_age > i64::MAX {
        Err(CoreError::TokenAmountOverflow)
    } else if ts + v.max_age < v.current_ts {
        Err(CoreError::MaxPriceAgeExceeded)
    } else if saturating_add_unsigned_spec(v.current_ts, v.max_future_timestamp_excess) < oracle_ts {
        Err(CoreError::MaxPriceTimestampExceeded)
    } else {
        Ok(merge_range_spec(v, Some(oracle_slot), ts as i64, ts as i64))
    }
}

/// The outcome of finishing a validation: the smallest slot and the timestamp range.
pub open spec fn finish_spec(v: PriceValidator) -> Result<Option<(u64, i64, i64)>, CoreError> {
    let range = v.max_oracle_ts - v.min_oracle_ts;
    if range < i64::MIN || range > i64::MAX {
        Err(CoreError::TokenAmountOverflow)
    } else if range < 0 {
        Err(CoreError::InvalidOracleTimestampsRange)
    } else if v.max_oracle_timestamp_range < range {
        Err(CoreError::MaxOracleTimestampsRangeExceeded)
    } else {
        match v.min_oracle_slot {
            None => Ok(None),
            Some(slot) => Ok(Some((slot, v.min_oracle_ts, v.max_oracle_ts))),
        }
    }
}

impl PriceValidator {
    /// Create a validator at the given time with the given limits; no price validated yet.
    pub fn new(
        current_ts: i64,
        max_age: u64,
        max_oracle_timestamp_range: u64,
        max_future_timestamp_excess: u64,
    ) -> (r: Self)
        ensures
            r == (PriceValidator {
                current_ts,
                max_age,
                max_oracle_timestamp_range,
                max_future_timestamp_excess,
                min_oracle_ts: i64::MAX,
                max_oracle_ts: i64::MIN,
                min_oracle_slot: None,
            }),
    {
        PriceValidator {
            current_ts,
            max_age,
            max_oracle_timestamp_range,
            max_future_timestamp_excess,
            min_oracle_ts: i64::MAX,
            max_oracle_ts: i64::MIN,
            min_oracle_slot: None,
        }
    }

    /// Validate one price published at `oracle_ts` in `oracle_slot`: its adjusted timestamp must not be
    /// older than the max age, and it must not be too far in the future.
    pub fn validate_one(&mut self, timestamp_adjustment: u64, oracle_ts: i64, oracle_slot: u64) -> (r:
        Result<(), CoreError>)
        ensures
            match validate_one_spec(*old(self), timestamp_adjustment, oracle_ts, oracle_slot) {
                Ok(v) => r is Ok && *final(self) == v,
                Err(e) => r == Err::<(), CoreError>(e) && *final(self) == *old(self),
            },
    {
        let ts = match oracle_ts.checked_sub_unsigned(timestamp_adjustment) {
            None => return Err(CoreError::TokenAmountOverflow),
            Some(ts) => ts,
        };
        let expiration_ts = match ts.checked_add_unsigned(self.max_age) {
            None => return Err(CoreError::TokenAmountOverflow),
            Some(e) => e,
        };
        let current_ts = self.current_ts;
        if expiration_ts < current_ts {
            return Err(CoreError::MaxPriceAgeExceeded);
        }
        if saturating_add_unsigned(current_ts, self.max_future_timestamp_excess) < oracle_ts {
            return Err(CoreError::MaxPriceTimestampExceeded);
        }
        self.merge_range(Some(oracle_slot), ts, ts);
        Ok(())
    }

    /// Merge a slot and a timestamp range into the collected ones.
    pub fn merge_range(&mut self, min_oracle_slot: Option<u64>, min_oracle_ts: i64, max_oracle_ts: i64)
        ensures
            *final(self) == merge_range_spec(*old(self), min_oracle_slot, min_oracle_ts, max_oracle_ts),
    {
        self.min_oracle_slot = match (self.min_oracle_slot, min_oracle_slot) {
            (Some(current), Some(other)) => Some(
                if current <= other {
                    current
                } else {
                    other
                },
            ),
            (None, Some(slot)) => Some(slot),
            (Some(slot), None) => Some(slot),
            (None, None) => None,
        };
        if min_oracle_ts < self.min_oracle_ts {
            self.min_oracle_ts = min_oracle_ts;
        }
        if max_oracle_ts > self.max_oracle_ts {
            self.max_oracle_ts = max_oracle_ts;
        }
    }

    /// Finish: the timestamp range must be within its max; returns the smallest slot and the
    /// timestamp range, if any price was validated.
    pub fn finish(self) -> (r: Result<Option<(u64, i64, i64)>, CoreError>)
        ensures
            r == finish_spec(self),
    {
        let range = match self.max_oracle_ts.checked_sub(self.min_oracle_ts) {
            None => return Err(CoreError::TokenAmountOverflow),
            Some(r) => r,
        };
        if range < 0 {
            return Err(CoreError::InvalidOracleTimestampsRange);
        }
        let range = range as u64;
        if self.max_oracle_timestamp_range < range {
            return Err(CoreError::MaxOracleTimestampsRangeExceeded);
        }
        match self.min_oracle_slot {
            None => Ok(None),
            Some(slot) => Ok(Some((slot, self.min_oracle_ts, self.max_oracle_ts))),
        }
    }
}

/// Merging two ranges in either order gives the same validator.
pub proof fn lemma_merge_range_commutes(
    v: PriceValidator,
    s1: Option<u64>,
    a1: i64,
    b1: i64,
    s2: Option<u64>,
    a2: i64,
    b2: i64,
)
    ensures
        merge_range_spec(merge_range_spec(v, s1, a1, b1), s2, a2, b2) == merge_range_spec(
            merge_range_spec(v, s2, a2, b2),
            s1,
            a1,
            b1,
        ),
{
}

/// After a price is validated, the collected range covers its adjusted timestamp and the
/// collected slot is at most its slot.
pub proof fn lemma_validate_one_covers(
    v: PriceValidator,
    timestamp_adjustment: u64,
    oracle_ts: i64,
    oracle_slot: u64,
)
    requires
        validate_one_spec(v, timestamp_adjustment, oracle_ts, oracle_slot) is Ok,
    ensures
        ({
            let w = validate_one_spec(v, timestamp_adjustment, oracle_ts, oracle_slot).unwrap();
            &&& w.min_oracle_ts <= oracle_ts - timestamp_adjustment <= w.max_oracle_ts
            &&& w.min_oracle_ts <= v.min_oracle_ts
            &&& w.max_oracle_ts >= v.max_oracle_ts
            &&& w.min_oracle_slot matches Some(s) && s <= oracle_slot
        }),
{
}

/// Check that the oracle was updated at or after `updated_after`, when given.
pub fn validate_min_oracle_ts(updated_after: Option<i64>, oracle_min_ts: i64) -> (r: Result<(), CoreError>)
    ensures
        updated_after matches Some(after) && oracle_min_ts < after ==> r == Err::<(), CoreError>(
            CoreError::OracleTimestampsAreSmallerThanRequired,
        ),
        !(updated_after matches Some(after) && oracle_min_ts < after) ==> r is Ok,
{
    match updated_after {
        None => Ok(()),
        Some(after) => {
            if oracle_min_ts < after {
                Err(CoreError::OracleTimestampsAreSmallerThanRequired)
            } else {
                Ok(())
            }
        },
    }
}

/// Check that the oracle was updated at or before `updated_before`, when given.
pub fn validate_max_oracle_ts(updated_before: Option<i64>, oracle_max_ts: i64) -> (r: Result<(), CoreError>)
    ensures
        updated_before matches Some(before) && before < oracle_max_ts ==> r == Err::<(), CoreError>(
            CoreError::OracleTimestampsAreLargerThanRequired,
        ),
        !(updated_before matches Some(before) && before < oracle_max_ts) ==> r is Ok,
{
    match updated_before {
        None => Ok(()),
        Some(before) => {
            if before < oracle_max_ts {
                Err(CoreError::OracleTimestampsAreLargerThanRequired)
            } else {
                Ok(())
            }
        },
    }
}

/// Check that the oracle was updated (it has a min slot) at or after the slot `updated_after_slot`,
/// when given.
pub fn validate_min_oracle_slot(oracle_min_slot: Option<u64>, updated_after_slot: Option<u64>) -> (r:
    Result<(), CoreError>)
    ensures
        oracle_min_slot is None ==> r == Err::<(), CoreError>(CoreError::OracleNotUpdated),
        oracle_min_slot matches Some(slot) && updated_after_slot matches Some(after) && slot < after
            ==> r == Err::<(), CoreError>(CoreError::InvalidOracleSlot),
        oracle_min_slot is Some && !(updated_after_slot matches Some(after) && oracle_min_slot.unwrap()
            < after) ==> r is Ok,
{
    let min_slot = match oracle_min_slot {
        None => return Err(CoreError::OracleNotUpdated),
        Some(s) => s,
    };
    match updated_after_slot {
        None => Ok(()),
        Some(after) => {
            if min_slot < after {
                Err(CoreError::InvalidOracleSlot)
            } else {
                Ok(())
            }
        },
    }
}

/// The min and max prices of a pyth price with its confidence: `price - conf` and `price + conf`.
pub fn pyth_price_with_confidence(price: i64, confidence: u64) -> (r: Result<(u64, u64), CoreError>)
    ensures
        price < 0 || price < confidence || price + confidence > u64::MAX ==> r == Err::<
            (u64, u64),
            CoreError,
        >(CoreError::InvalidPriceFeedPrice),
        !(price < 0 || price < confidence || price + confidence > u64::MAX) ==> r == Ok::<
            (u64, u64),
            CoreError,
        >(((price - confidence) as u64, (price + confidence) as u64)),
{
    if price < 0 {
        return Err(CoreError::InvalidPriceFeedPrice);
    }
    let mid_price = price as u64;
    let min_price = match mid_price.checked_sub(confidence) {
        None => return Err(CoreError::InvalidPriceFeedPrice),
        Some(p) => p,
    };
    let max_price = match mid_price.checked_add(confidence) {
        None => return Err(CoreError::InvalidPriceFeedPrice),
        Some(p) => p,
    };
    Ok((min_price, max_price))
}

/// `10^exponent` for a `u64`, `None` on overflow.
pub fn checked_pow10_u64(exponent: u32) -> (r: Option<u64>)
    ensures
        pow10(exponent as nat) <= u64::MAX ==> r == Some(pow10(exponent as nat) as u64),
        pow10(exponent as nat) > u64::MAX ==> r is None,
{
    let mut acc: u64 = 1;
    let mut i: u32 = 0;
    while i < exponent
        invariant
            i <= exponent,
            acc == pow10(i as nat),
        decreases exponent - i,
    {
        match acc.checked_mul(10) {
            None => {
                proof {
                    lemma_pow10_grows(i as nat, exponent as nat);
                }
                return None;
            },
            Some(a) => {
                acc = a;
            },
        }
        i = i + 1;
    }
    Some(acc)
}

proof fn lemma_pow10_grows(i: nat, e: nat)
    requires
        i < e,
    ensures
        pow10(e) >= 10 * pow10(i),
    decreases e - i,
{
    if i + 1 < e {
        lemma_pow10_grows(i + 1, e);
        assert(pow10(i + 1) == 10 * pow10(i));
        lemma_pow10_pos(i);
        assert(pow10(e) >= 10 * pow10(i + 1));
    }
}

proof fn lemma_pow10_pos(i: nat)
    ensures
        pow10(i) >= 1,
    decreases i,
{
    if i > 0 {
        lemma_pow10_pos((i - 1) as nat);
    }
}

/// The value and decimals of a pyth price value with an exponent (the actual price is
/// `value * 10^exponent`): a non-positive exponent gives `-exponent` decimals, a positive one
/// multiplies the value and gives no decimals.
pub open spec fn pyth_value_spec(value: u64, exponent: i32) -> Result<(u128, u8), CoreError> {
    if exponent <= 0 {
        if -exponent > u8::MAX {
            Err(CoreError::InvalidPriceFeedPrice)
        } else {
            Ok((value as u128, (-exponent) as u8))
        }
    } else if pow10(exponent as nat) > u64::MAX || value * pow10(exponent as nat) > u64::MAX {
        Err(CoreError::InvalidPriceFeedPrice)
    } else {
        Ok(((value * pow10(exponent as nat)) as u128, 0))
    }
}

/// Pyth price value to the value and decimals of a decimal price (see [`pyth_value_spec`]).
pub fn pyth_price_value_to_decimal(value: u64, exponent: i32) -> (r: Result<(u128, u8), CoreError>)
    ensures
        r == pyth_value_spec(value, exponent),
{
    if exponent <= 0 {
        if exponent < -255 {
            return Err(CoreError::InvalidPriceFeedPrice);
        }
        Ok((value as u128, (-exponent) as u8))
    } else {
        let factor = match checked_pow10_u64(exponent as u32) {
            None => return Err(CoreError::InvalidPriceFeedPrice),
            Some(f) => f,
        };
        match value.checked_mul(factor) {
            None => Err(CoreError::InvalidPriceFeedPrice),
            Some(v) => Ok((v as u128, 0)),
        }
    }
}

/// The min and max prices of a pyth price with its confidence, each as the value and decimals of a
/// decimal price: `price - conf` and `price + conf`, converted with the exponent.
pub open spec fn pyth_confidence_price_spec(price: i64, confidence: u64, exponent: i32) -> Result<
    ((u128, u8), (u128, u8)),
    CoreError,
> {
    if price < 0 || price < confidence || price + confidence > u64::MAX {
        Err(CoreError::InvalidPriceFeedPrice)
    } else {
        match pyth_value_spec((price - confidence) as u64, exponent) {
            Err(e) => Err(e),
            Ok(min) => match pyth_value_spec((price + confidence) as u64, exponent) {
                Err(e) => Err(e),
                Ok(max) => Ok((min, max)),
            },
        }
    }
}

/// Convert a pyth price with its confidence and exponent to the min and max prices (see
/// [`pyth_confidence_price_spec`]); the min is never above the max.
pub fn pyth_price_with_confidence_to_price(price: i64, confidence: u64, exponent: i32) -> (r: Result<
    ((u128, u8), (u128, u8)),
    CoreError,
>)
    ensures
        r == pyth_confidence_price_spec(price, confidence, exponent),
        r matches Ok((min, max)) ==> min.1 == max.1 && min.0 <= max.0,
{
    let (min_price, max_price) = match pyth_price_with_confidence(price, confidence) {
        Err(e) => return Err(e),
        Ok(p) => p,
    };
    let min = match pyth_price_value_to_decimal(min_price, exponent) {
        Err(e) => return Err(e),
        Ok(v) => v,
    };
    let max = match pyth_price_value_to_decimal(max_price, exponent) {
        Err(e) => return Err(e),
        Ok(v) => v,
    };
    proof {
        if exponent > 0 {
            let f = pow10(exponent as nat) as int;
            assert(min_price as int * f <= max_price as int * f) by (nonlinear_arith)
                requires
                    min_price <= max_price,
                    f >= 0,
            ;
        }
    }
    Ok((min, max))
}

/// Check a chainlink round: the answer must be positive and the round not older than the heartbeat
/// duration; returns the answer.
pub fn check_chainlink_round(answer: i128, timestamp: u32, current: i64, heartbeat_duration: u32) -> (r:
    Result<u128, CoreError>)
    ensures
        answer <= 0 ==> r == Err::<u128, CoreError>(CoreError::InvalidPriceFeedPrice),
        answer > 0 && current > timestamp && current - timestamp > heartbeat_duration ==> r == Err::<
            u128,
            CoreError,
        >(CoreError::PriceFeedNotUpdated),
        answer > 0 && !(current > timestamp && current - timestamp > heartbeat_duration) ==> r == Ok::<
            u128,
            CoreError,
        >(answer as u128),
{
    if answer <= 0 {
        return Err(CoreError::InvalidPriceFeedPrice);
    }
    let ts = timestamp as i64;
    if current > ts && current - ts > heartbeat_duration as i64 {
        return Err(CoreError::PriceFeedNotUpdated);
    }
    Ok(answer as u128)
}

} // verus!
