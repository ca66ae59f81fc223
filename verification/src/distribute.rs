//! Distribution of the position impact pool over time.
use vstd::prelude::*;

use crate::clock::{just_passed_in_seconds, just_passed_spec};
use crate::error::Error;
use crate::fixed::{pow10, MAX_DECIMALS};
use crate::num::{mul_div_spec, to_opposite_signed};
use crate::params::PositionImpactDistributionParams;
use crate::pool::Pool;
use crate::utils::apply_factor;

verus! {

/// The state of a market that the position impact distribution uses.
#[derive(Debug, Clone, Copy)]
pub struct PositionImpactMarket {
    /// The position impact pool (its amount is kept on the long side).
    pub position_impact_pool: Pool,
    /// The last time the pool was distributed.
    pub position_impact_distribution_clock: i64,
    /// The distribution params.
    pub params: PositionImpactDistributionParams,
}

/// Distribute Position Impact Report.
#[derive(Debug, Clone, Copy)]
pub struct DistributePositionImpactReport {
    /// Considered duration in seconds.
    pub duration_in_seconds: u64,
    /// Distributed amount.
    pub distribution_amount: u128,
    /// The pool amount after the distribution.
    pub next_position_impact_pool_amount: u128,
}

impl DistributePositionImpactReport {
    /// Get considered duration in seconds.
    pub fn duration_in_seconds(&self) -> (r: u64)
        ensures
            r == self.duration_in_seconds,
    {
        self.duration_in_seconds
    }

    /// Get distribution amount.
    pub fn distribution_amount(&self) -> (r: &u128)
        ensures
            *r == self.distribution_amount,
    {
        &self.distribution_amount
    }

    /// Get Next position impact pool amount.
    pub fn next_position_impact_pool_amount(&self) -> (r: &u128)
        ensures
            *r == self.next_position_impact_pool_amount,
    {
        &self.next_position_impact_pool_amount
    }
}

/// The amount to distribute after `duration` seconds and the pool amount that remains:
/// `duration * distribute_factor`, but never below the min pool amount.
pub open spec fn pending_distribution_spec(
    current: int,
    params: PositionImpactDistributionParams,
    duration: int,
    u: int,
) -> Result<(u128, u128), Error> {
    if params.distribute_factor == 0 || current <= params.min_position_impact_pool_amount {
        Ok((0, current as u128))
    } else {
        let max_amount = current - params.min_position_impact_pool_amount;
        match mul_div_spec(duration, params.distribute_factor as int, u) {
            None => Err(Error::Computation),
            Some(d) => {
                let amount = if d > max_amount {
                    max_amount
                } else {
                    d as int
                };
                Ok((amount as u128, (current - amount) as u128))
            },
        }
    }
}

/// The outcome of a distribution at time `current`.
pub open spec fn distribute_spec(market: PositionImpactMarket, current: i64, u: int) -> Result<
    (PositionImpactMarket, DistributePositionImpactReport),
    Error,
> {
    let duration = just_passed_spec(market.position_impact_distribution_clock, current);
    let clock = if crate::clock::saturating_sub_spec(current, market.position_impact_distribution_clock)
        > 0 {
        current
    } else {
        market.position_impact_distribution_clock
    };
    match pending_distribution_spec(
        market.position_impact_pool.spec_long_amount() as int,
        market.params,
        duration as int,
        u,
    ) {
        Err(e) => Err(e),
        Ok((amount, next_amount)) => {
            let report = DistributePositionImpactReport {
                duration_in_seconds: duration,
                distribution_amount: amount,
                next_position_impact_pool_amount: next_amount,
            };
            if amount == 0 {
                Ok(
                    (
                        PositionImpactMarket { position_impact_distribution_clock: clock, ..market },
                        report,
                    ),
                )
            } else if amount > i128::MAX {
                Err(Error::Convert)
            } else {
                match market.position_impact_pool.spec_with_delta(true, -amount) {
                    None => Err(Error::Computation),
                    Some(p) => Ok(
                        (
                            PositionImpactMarket {
                                position_impact_pool: p,
                                position_impact_distribution_clock: clock,
                                ..market
                            },
                            report,
                        ),
                    ),
                }
            }
        },
    }
}

impl PositionImpactMarket {
    /// The pending distribution amount and the next pool amount after `duration_in_secs` seconds.
    pub fn pending_position_impact_pool_distribution_amount<const DECIMALS: u8>(
        &self,
        duration_in_secs: u64,
    ) -> (r: Result<(u128, u128), Error>)
        requires
            DECIMALS <= MAX_DECIMALS,
        ensures
            r == pending_distribution_spec(
                self.position_impact_pool.spec_long_amount() as int,
                self.params,
                duration_in_secs as int,
                pow10(DECIMALS as nat) as int,
            ),
    {
        let current = self.position_impact_pool.long_amount();
        if self.params.distribute_factor == 0 || current
            <= self.params.min_position_impact_pool_amount {
            return Ok((0, current));
        }
        let max_distribution_amount = current - self.params.min_position_impact_pool_amount;
        let duration_value = duration_in_secs as u128;
        let mut distribution_amount = match apply_factor::<DECIMALS>(
            &duration_value,
            &self.params.distribute_factor,
        ) {
            None => return Err(Error::Computation),
            Some(d) => d,
        };
        if distribution_amount > max_distribution_amount {
            distribution_amount = max_distribution_amount;
        }
        Ok((distribution_amount, current - distribution_amount))
    }

    /// Distribute the position impact pool for the time elapsed until `current`.
    ///
    /// On error the market is left unchanged.
    pub fn distribute_position_impact<const DECIMALS: u8>(&mut self, current: i64) -> (r: Result<
        DistributePositionImpactReport,
        Error,
    >)
        requires
            DECIMALS <= MAX_DECIMALS,
        ensures
            match distribute_spec(*old(self), current, pow10(DECIMALS as nat) as int) {
                Ok((m, report)) => r == Ok::<DistributePositionImpactReport, Error>(report)
                    && *final(self) == m,
                Err(e) => r == Err::<DistributePositionImpactReport, Error>(e)
                    && *final(self) == *old(self),
            },
    {
        let mut m = *self;
        let duration_in_seconds = just_passed_in_seconds(
            &mut m.position_impact_distribution_clock,
            current,
        );
        let (distribution_amount, next_position_impact_pool_amount) =
            match m.pending_position_impact_pool_distribution_amount::<DECIMALS>(duration_in_seconds) {
            Err(e) => return Err(e),
            Ok(x) => x,
        };
        if distribution_amount != 0 {
            let delta = match to_opposite_signed(distribution_amount) {
                None => return Err(Error::Convert),
                Some(d) => d,
            };
            match m.position_impact_pool.apply_delta_to_long_amount(&delta) {
                Err(e) => return Err(e),
                Ok(()) => {},
            }
        }
        *self = m;
        Ok(
            DistributePositionImpactReport {
                duration_in_seconds,
                distribution_amount,
                next_position_impact_pool_amount,
            },
        )
    }
}

/// A distribution never takes the pool below its min amount (when it was above it), never
/// distributes more than the pool held, and the report's next amount is what remains.
pub proof fn lemma_distribution_bounded(current: int, params: PositionImpactDistributionParams, duration: int, u: int)
    requires
        0 <= current <= u128::MAX,
        pending_distribution_spec(current, params, duration, u) is Ok,
    ensures
        ({
            let (amount, next) = pending_distribution_spec(current, params, duration, u).unwrap();
            &&& amount + next == current
            &&& current > params.min_position_impact_pool_amount ==> next >= params.min_position_impact_pool_amount
            &&& current <= params.min_position_impact_pool_amount ==> amount == 0
        }),
{
}

} // verus!
