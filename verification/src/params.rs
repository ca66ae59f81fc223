//! Market parameters: fees, position limits and price impact.
use vstd::prelude::*;

use crate::error::Error;
use crate::fixed::{pow10, MAX_DECIMALS};
use crate::num::mul_div_spec;
use crate::utils::apply_factor;

verus! {

/// Fee Parameters.
#[derive(Debug, Clone, Copy)]
pub struct FeeParams {
    /// Fee factor applied when the price impact is positive.
    pub positive_impact_fee_factor: u128,
    /// Fee factor applied when the price impact is negative.
    pub negative_impact_fee_factor: u128,
    /// The part of a fee that goes to the fee receiver.
    pub fee_receiver_factor: u128,
}

/// Fees.
#[derive(Debug, Clone, Copy)]
pub struct Fees {
    /// Amount for the fee receiver.
    pub fee_receiver_amount: u128,
    /// Amount for the pool.
    pub fee_amount_for_pool: u128,
}

impl Default for Fees {
    /// Zero fees.
    fn default() -> (r: Self)
        ensures
            r.fee_receiver_amount == 0,
            r.fee_amount_for_pool == 0,
    {
        Fees::zero()
    }
}

impl Fees {
    /// Zero fees.
    pub fn zero() -> (r: Self)
        ensures
            r.fee_receiver_amount == 0,
            r.fee_amount_for_pool == 0,
    {
        Fees { fee_receiver_amount: 0, fee_amount_for_pool: 0 }
    }

    /// Create a new [`Fees`].
    pub fn new(pool: u128, receiver: u128) -> (r: Self)
        ensures
            r.fee_amount_for_pool == pool,
            r.fee_receiver_amount == receiver,
    {
        Fees { fee_amount_for_pool: pool, fee_receiver_amount: receiver }
    }

    /// Get fee receiver amount.
    pub fn fee_receiver_amount(&self) -> (r: &u128)
        ensures
            *r == self.fee_receiver_amount,
    {
        &self.fee_receiver_amount
    }

    /// Get fee amount for pool.
    pub fn fee_amount_for_pool(&self) -> (r: &u128)
        ensures
            *r == self.fee_amount_for_pool,
    {
        &self.fee_amount_for_pool
    }
}

/// The fee factor for the side of the price impact.
pub open spec fn fee_factor_spec(params: FeeParams, is_positive_impact: bool) -> u128 {
    if is_positive_impact {
        params.positive_impact_fee_factor
    } else {
        params.negative_impact_fee_factor
    }
}

/// The amount after fees and the fees, for an amount and fee params with unit `u`.
pub open spec fn apply_fees_spec(
    params: FeeParams,
    is_positive_impact: bool,
    amount: int,
    u: int,
) -> Option<(u128, Fees)> {
    match mul_div_spec(amount, fee_factor_spec(params, is_positive_impact) as int, u) {
        None => None,
        Some(fee) => match mul_div_spec(fee as int, params.fee_receiver_factor as int, u) {
            None => None,
            Some(receiver) => {
                if receiver > fee || fee > amount {
                    None
                } else {
                    Some(
                        (
                            (amount - fee) as u128,
                            Fees {
                                fee_amount_for_pool: (fee - receiver) as u128,
                                fee_receiver_amount: receiver,
                            },
                        ),
                    )
                }
            },
        },
    }
}

impl FeeParams {
    /// Builder for [`FeeParams`], with every factor zero.
    pub fn builder() -> (b: Builder)
        ensures
            b.positive_impact_factor == 0,
            b.negative_impact_factor == 0,
            b.fee_receiver_factor == 0,
    {
        Builder { positive_impact_factor: 0, negative_impact_factor: 0, fee_receiver_factor: 0 }
    }

    /// The fee factor for the side of the price impact.
    fn factor(&self, is_positive_impact: bool) -> (r: &u128)
        ensures
            *r == fee_factor_spec(*self, is_positive_impact),
    {
        if is_positive_impact {
            &self.positive_impact_fee_factor
        } else {
            &self.negative_impact_fee_factor
        }
    }

    /// Get basic fee: `amount * factor`, where the factor is chosen by the side of the price impact.
    pub fn fee<const DECIMALS: u8>(&self, is_positive_impact: bool, amount: &u128) -> (r: Option<
        u128,
    >)
        requires
            DECIMALS <= MAX_DECIMALS,
        ensures
            r == mul_div_spec(
                *amount as int,
                fee_factor_spec(*self, is_positive_impact) as int,
                pow10(DECIMALS as nat) as int,
            ),
    {
        let factor = self.factor(is_positive_impact);
        apply_factor::<DECIMALS>(amount, factor)
    }

    /// Get receiver fee: `fee_amount * fee_receiver_factor`.
    pub fn receiver_fee<const DECIMALS: u8>(&self, fee_amount: &u128) -> (r: Option<u128>)
        requires
            DECIMALS <= MAX_DECIMALS,
        ensures
            r == mul_div_spec(
                *fee_amount as int,
                self.fee_receiver_factor as int,
                pow10(DECIMALS as nat) as int,
            ),
    {
        apply_factor::<DECIMALS>(fee_amount, &self.fee_receiver_factor)
    }

    /// Apply fees to `amount`.
    /// - `DECIMALS` is the decimals of the parameters.
    ///
    /// Returns `None` if the computation fails, otherwise `amount` after fees and the fees are returned.
    pub fn apply_fees<const DECIMALS: u8>(&self, is_positive_impact: bool, amount: &u128) -> (r:
        Option<(u128, Fees)>)
        requires
            DECIMALS <= MAX_DECIMALS,
        ensures
            r == apply_fees_spec(*self, is_positive_impact, *amount as int, pow10(DECIMALS as nat) as int),
            r matches Some((after, fees)) ==> after + fees.fee_amount_for_pool
                + fees.fee_receiver_amount == *amount,
    {
        let fee_amount = match self.fee::<DECIMALS>(is_positive_impact, amount) {
            None => return None,
            Some(f) => f,
        };
        let fee_receiver_amount = match self.receiver_fee::<DECIMALS>(&fee_amount) {
            None => return None,
            Some(f) => f,
        };
        let fee_amount_for_pool = match fee_amount.checked_sub(fee_receiver_amount) {
            None => return None,
            Some(f) => f,
        };
        let fees = Fees { fee_amount_for_pool, fee_receiver_amount };
        match amount.checked_sub(fee_amount) {
            None => None,
            Some(after) => Some((after, fees)),
        }
    }

    /// Get order fees, paid in collateral tokens.
    fn order_fees<const DECIMALS: u8>(
        &self,
        collateral_token_price: &u128,
        size_delta_usd: &u128,
        is_positive_impact: bool,
    ) -> (r: Result<OrderFees, Error>)
        requires
            DECIMALS <= MAX_DECIMALS,
        ensures
            r == order_fees_spec(
                *self,
                *collateral_token_price as int,
                *size_delta_usd as int,
                is_positive_impact,
                pow10(DECIMALS as nat) as int,
            ),
    {
        if *collateral_token_price == 0 {
            return Err(Error::InvalidPrices);
        }
        let fee_usd = match self.fee::<DECIMALS>(is_positive_impact, size_delta_usd) {
            None => return Err(Error::Computation),
            Some(f) => f,
        };
        let fee_amount = fee_usd / *collateral_token_price;
        let receiver_fee_amount = match self.receiver_fee::<DECIMALS>(&fee_amount) {
            None => return Err(Error::Computation),
            Some(f) => f,
        };
        match fee_amount.checked_sub(receiver_fee_amount) {
            None => Err(Error::Computation),
            Some(pool) => Ok(OrderFees { base: Fees::new(pool, receiver_fee_amount) }),
        }
    }

    /// Get position fees: the order fee of `size_delta_usd`, converted to collateral tokens
    /// at `collateral_token_price` (rounded down), split between the pool and the receiver.
    pub fn position_fees<const DECIMALS: u8>(
        &self,
        collateral_token_price: &u128,
        size_delta_usd: &u128,
        is_positive_impact: bool,
    ) -> (r: Result<PositionFees, Error>)
        requires
            DECIMALS <= MAX_DECIMALS,
        ensures
            r matches Ok(fees) ==> order_fees_spec(
                *self,
                *collateral_token_price as int,
                *size_delta_usd as int,
                is_positive_impact,
                pow10(DECIMALS as nat) as int,
            ) == Ok::<OrderFees, Error>(OrderFees { base: fees.base }),
            r matches Err(e) ==> order_fees_spec(
                *self,
                *collateral_token_price as int,
                *size_delta_usd as int,
                is_positive_impact,
                pow10(DECIMALS as nat) as int,
            ) == Err::<OrderFees, Error>(e),
    {
        match self.order_fees::<DECIMALS>(collateral_token_price, size_delta_usd, is_positive_impact) {
            Ok(order) => Ok(PositionFees { base: order.base }),
            Err(e) => Err(e),
        }
    }
}

/// Order fees for a position change (see [`FeeParams::position_fees`]).
pub open spec fn order_fees_spec(
    params: FeeParams,
    price: int,
    size_delta_usd: int,
    is_positive_impact: bool,
    u: int,
) -> Result<OrderFees, Error> {
    if price == 0 {
        Err(Error::InvalidPrices)
    } else {
        match mul_div_spec(size_delta_usd, fee_factor_spec(params, is_positive_impact) as int, u) {
            None => Err(Error::Computation),
            Some(fee_usd) => {
                let fee_amount = fee_usd as int / price;
                match mul_div_spec(fee_amount, params.fee_receiver_factor as int, u) {
                    None => Err(Error::Computation),
                    Some(receiver) => {
                        if receiver > fee_amount {
                            Err(Error::Computation)
                        } else {
                            Ok(
                                OrderFees {
                                    base: Fees {
                                        fee_amount_for_pool: (fee_amount - receiver) as u128,
                                        fee_receiver_amount: receiver,
                                    },
                                },
                            )
                        }
                    },
                }
            },
        }
    }
}

/// Order Fees.
pub struct OrderFees {
    /// The fees.
    pub base: Fees,
}

/// Position Fees.
#[derive(Debug, Clone, Copy)]
pub struct PositionFees {
    /// The fees.
    pub base: Fees,
}

impl Default for PositionFees {
    /// Zero position fees.
    fn default() -> (r: Self)
        ensures
            r.base.fee_receiver_amount == 0,
            r.base.fee_amount_for_pool == 0,
    {
        PositionFees::zero()
    }
}

impl PositionFees {
    /// Zero position fees.
    pub fn zero() -> (r: Self)
        ensures
            r.base.fee_receiver_amount == 0,
            r.base.fee_amount_for_pool == 0,
    {
        PositionFees { base: Fees::zero() }
    }

    /// Get base fees.
    pub fn base(&self) -> (r: &Fees)
        ensures
            *r == self.base,
    {
        &self.base
    }

    /// Get total cost amount in collateral tokens.
    pub fn total_cost_amount(&self) -> (r: Result<u128, Error>)
        ensures
            r == total_cost_spec(*self),
    {
        self.total_cost_excluding_funding()
    }

    /// Get total cost excluding funding fee: the fee for the pool plus the fee for the receiver.
    pub fn total_cost_excluding_funding(&self) -> (r: Result<u128, Error>)
        ensures
            r == total_cost_spec(*self),
    {
        match self.base.fee_amount_for_pool.checked_add(self.base.fee_receiver_amount) {
            None => Err(Error::Overflow),
            Some(v) => Ok(v),
        }
    }
}

/// The total cost of position fees.
pub open spec fn total_cost_spec(fees: PositionFees) -> Result<u128, Error> {
    if fees.base.fee_amount_for_pool + fees.base.fee_receiver_amount > u128::MAX {
        Err(Error::Overflow)
    } else {
        Ok((fees.base.fee_amount_for_pool + fees.base.fee_receiver_amount) as u128)
    }
}

/// Builder for [`FeeParams`].
pub struct Builder {
    /// Fee factor for positive impact.
    pub positive_impact_factor: u128,
    /// Fee factor for negative impact.
    pub negative_impact_factor: u128,
    /// Fee receiver factor.
    pub fee_receiver_factor: u128,
}

impl Builder {
    /// Set the fee factor for positive impact.
    pub fn with_positive_impact_fee_factor(self, factor: u128) -> (r: Self)
        ensures
            r == (Builder { positive_impact_factor: factor, ..self }),
    {
        Builder { positive_impact_factor: factor, ..self }
    }

    /// Set the fee factor for negative impact.
    pub fn with_negative_impact_fee_factor(self, factor: u128) -> (r: Self)
        ensures
            r == (Builder { negative_impact_factor: factor, ..self }),
    {
        Builder { negative_impact_factor: factor, ..self }
    }

    /// Set the fee receiver factor.
    pub fn with_fee_receiver_factor(self, factor: u128) -> (r: Self)
        ensures
            r == (Builder { fee_receiver_factor: factor, ..self }),
    {
        Builder { fee_receiver_factor: factor, ..self }
    }

    /// Build [`FeeParams`].
    pub fn build(self) -> (r: FeeParams)
        ensures
            r.positive_impact_fee_factor == self.positive_impact_factor,
            r.negative_impact_fee_factor == self.negative_impact_factor,
            r.fee_receiver_factor == self.fee_receiver_factor,
    {
        FeeParams {
            positive_impact_fee_factor: self.positive_impact_factor,
            negative_impact_fee_factor: self.negative_impact_factor,
            fee_receiver_factor: self.fee_receiver_factor,
        }
    }
}

/// Basic Position Parameters.
#[derive(Debug, Clone, Copy)]
pub struct PositionParams {
    min_position_size_usd: u128,
    min_collateral_value: u128,
    min_collateral_factor: u128,
}

impl PositionParams {
    /// The min position size in usd.
    pub closed spec fn spec_min_position_size_usd(self) -> u128 {
        self.min_position_size_usd
    }

    /// The min collateral value.
    pub closed spec fn spec_min_collateral_value(self) -> u128 {
        self.min_collateral_value
    }

    /// The min collateral factor.
    pub closed spec fn spec_min_collateral_factor(self) -> u128 {
        self.min_collateral_factor
    }

    /// Create a new [`PositionParams`].
    pub fn new(min_position_size_usd: u128, min_collateral_value: u128, min_collateral_factor: u128) -> (r:
        Self)
        ensures
            r.spec_min_position_size_usd() == min_position_size_usd,
            r.spec_min_collateral_value() == min_collateral_value,
            r.spec_min_collateral_factor() == min_collateral_factor,
    {
        PositionParams { min_collateral_value, min_position_size_usd, min_collateral_factor }
    }

    /// Get min position size usd.
    pub fn min_position_size_usd(&self) -> (r: &u128)
        ensures
            *r == self.spec_min_position_size_usd(),
    {
        &self.min_position_size_usd
    }

    /// Get min collateral value.
    pub fn min_collateral_value(&self) -> (r: &u128)
        ensures
            *r == self.spec_min_collateral_value(),
    {
        &self.min_collateral_value
    }

    /// Get min collateral factor.
    pub fn min_collateral_factor(&self) -> (r: &u128)
        ensures
            *r == self.spec_min_collateral_factor(),
    {
        &self.min_collateral_factor
    }
}

/// Price impact parameters: `impact = factor * diff^exponent`.
#[derive(Debug, Clone, Copy)]
pub struct PriceImpactParams {
    /// The exponent.
    pub exponent: u128,
    /// The factor for positive impact.
    pub positive_factor: u128,
    /// The factor for negative impact.
    pub negative_factor: u128,
}

/// The factors actually used: the positive factor never exceeds the negative one.
pub open spec fn adjusted_factors_spec(params: PriceImpactParams) -> (u128, u128) {
    if params.positive_factor > params.negative_factor {
        (params.negative_factor, params.negative_factor)
    } else {
        (params.positive_factor, params.negative_factor)
    }
}

impl PriceImpactParams {
    /// Get the exponent.
    pub fn exponent(&self) -> (r: &u128)
        ensures
            *r == self.exponent,
    {
        &self.exponent
    }

    /// The `(positive, negative)` factors, with the positive factor capped at the negative one,
    /// so that a round trip never yields a net positive impact.
    pub fn adjusted_factors(&self) -> (r: (u128, u128))
        ensures
            r == adjusted_factors_spec(*self),
    {
        if self.positive_factor > self.negative_factor {
            (self.negative_factor, self.negative_factor)
        } else {
            (self.positive_factor, self.negative_factor)
        }
    }
}

/// Position impact distribution parameters.
#[derive(Debug, Clone, Copy)]
pub struct PositionImpactDistributionParams {
    /// The amount distributed per second (a factor applied to the elapsed seconds).
    pub distribute_factor: u128,
    /// The position impact pool is never distributed below this amount.
    pub min_position_impact_pool_amount: u128,
}

} // verus!
