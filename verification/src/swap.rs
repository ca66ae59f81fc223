//! Swaps between the long and the short token of a market.
use vstd::prelude::*;

use crate::delta::{pool_delta_with_values_spec, swap_impact_spec, PoolDelta};
use crate::error::Error;
use crate::fixed::{pow10, MAX_DECIMALS};
use crate::num::{checked_mul_div, mul_div_spec, to_signed, unsigned_abs};
use crate::params::{apply_fees_spec, FeeParams, Fees, PriceImpactParams};
use crate::pool::Pool;
use crate::price::{prices_valid, Price, Prices};

verus! {

/// The state of a market that swaps use.
#[derive(Debug, Clone, Copy)]
pub struct SwapMarket {
    /// The primary liquidity pool.
    pub liquidity_pool: Pool,
    /// The swap impact pool.
    pub swap_impact_pool: Pool,
    /// The claimable fee pool.
    pub claimable_fee_pool: Pool,
    /// Swap impact params.
    pub swap_impact_params: PriceImpactParams,
    /// Swap fee params.
    pub swap_fee_params: FeeParams,
    /// Max amount of long tokens in the liquidity pool.
    pub max_pool_amount_for_long_token: u128,
    /// Max amount of short tokens in the liquidity pool.
    pub max_pool_amount_for_short_token: u128,
}

/// The token amount of a usd impact, capped by the swap impact pool for a positive impact
/// and rounded away from zero for a negative impact.
pub open spec fn swap_impact_amount_spec(
    pool: Pool,
    is_long_token: bool,
    price: Price,
    usd_impact: int,
) -> Result<i128, Error> {
    if price.min == 0 || price.max == 0 {
        Err(Error::DividedByZero)
    } else if usd_impact > 0 {
        if price.max > i128::MAX {
            Err(Error::Convert)
        } else {
            let amount = usd_impact / (price.max as int);
            let max_amount = if is_long_token {
                pool.spec_long_amount()
            } else {
                pool.spec_short_amount()
            };
            if amount > max_amount {
                if max_amount > i128::MAX {
                    Err(Error::Convert)
                } else {
                    Ok(max_amount as i128)
                }
            } else {
                Ok(amount as i128)
            }
        }
    } else if usd_impact < 0 {
        if price.min > i128::MAX {
            Err(Error::Convert)
        } else if usd_impact - price.min < i128::MIN {
            Err(Error::Computation)
        } else {
            Ok((-((-(usd_impact - price.min + 1)) / (price.min as int))) as i128)
        }
    } else {
        Ok(0)
    }
}

/// The swap impact pool after applying a usd impact, and the amount taken from or added to it.
pub open spec fn apply_swap_impact_spec(
    pool: Pool,
    is_long_token: bool,
    price: Price,
    usd_impact: int,
) -> Result<(Pool, u128), Error> {
    match swap_impact_amount_spec(pool, is_long_token, price, usd_impact) {
        Err(e) => Err(e),
        Ok(amount) => {
            if amount == i128::MIN {
                Err(Error::Computation)
            } else {
                match pool.spec_with_delta(is_long_token, -amount) {
                    None => Err(Error::Computation),
                    Some(p) => Ok(
                        (p, if amount >= 0 { amount as u128 } else { (-amount) as u128 }),
                    ),
                }
            }
        },
    }
}

impl SwapMarket {
    /// Get the swap impact amount with cap.
    pub fn swap_impact_amount_with_cap(
        &self,
        is_long_token: bool,
        price: &Price,
        usd_impact: &i128,
    ) -> (r: Result<i128, Error>)
        ensures
            r == swap_impact_amount_spec(self.swap_impact_pool, is_long_token, *price, *usd_impact as int),
    {
        if price.has_zero() {
            return Err(Error::DividedByZero);
        }
        if *usd_impact > 0 {
            let price = match to_signed(*price.pick_price(true)) {
                None => return Err(Error::Convert),
                Some(p) => p,
            };
            let mut amount = match usd_impact.checked_div(price) {
                None => return Err(Error::Computation),
                Some(a) => a,
            };
            let max_amount = if is_long_token {
                self.swap_impact_pool.long_amount()
            } else {
                self.swap_impact_pool.short_amount()
            };
            if unsigned_abs(amount) > max_amount {
                amount = match to_signed(max_amount) {
                    None => return Err(Error::Convert),
                    Some(a) => a,
                };
            }
            Ok(amount)
        } else if *usd_impact < 0 {
            let price = match to_signed(*price.pick_price(false)) {
                None => return Err(Error::Convert),
                Some(p) => p,
            };
            let a = match usd_impact.checked_sub(price) {
                None => return Err(Error::Computation),
                Some(a) => a,
            };
            let b = match a.checked_add(1) {
                None => return Err(Error::Computation),
                Some(b) => b,
            };
            proof {
                assert(-(-b / price as int) >= b) by (nonlinear_arith)
                    requires
                        b < 0,
                        price >= 1,
                ;
                assert(-b / (price as int) >= 0) by (nonlinear_arith)
                    requires
                        b < 0,
                        price >= 1,
                ;
            }
            match b.checked_div(price) {
                None => Err(Error::Computation),
                Some(amount) => Ok(amount),
            }
        } else {
            Ok(0)
        }
    }

    /// Apply a swap impact value to the price impact pool.
    ///
    /// - If it is a positive impact amount, cap the impact amount to the amount available in the price impact pool,
    ///   and the price impact pool will be decreased by this amount and return.
    /// - If it is a negative impact amount, the price impact pool will be increased by this amount and return.
    pub fn apply_swap_impact_value_with_cap(
        &mut self,
        is_long_token: bool,
        price: &Price,
        usd_impact: &i128,
    ) -> (r: Result<u128, Error>)
        ensures
            match apply_swap_impact_spec(old(self).swap_impact_pool, is_long_token, *price, *usd_impact as int) {
                Ok((p, amount)) => r == Ok::<u128, Error>(amount) && *final(self) == (SwapMarket {
                    swap_impact_pool: p,
                    ..*old(self)
                }),
                Err(e) => r == Err::<u128, Error>(e) && *final(self) == *old(self),
            },
    {
        let amount = match self.swap_impact_amount_with_cap(is_long_token, price, usd_impact) {
            Err(e) => return Err(e),
            Ok(a) => a,
        };
        if amount == i128::MIN {
            return Err(Error::Computation);
        }
        let delta = -amount;
        match self.swap_impact_pool.apply_delta_amount(is_long_token, &delta) {
            Err(e) => Err(e),
            Ok(()) => Ok(unsigned_abs(delta)),
        }
    }

    /// Validate that the amount of the given side of the liquidity pool does not exceed its max.
    pub fn validate_pool_amount(&self, is_long_token: bool) -> (r: Result<(), Error>)
        ensures
            r is Ok <==> pool_amount_valid(*self, is_long_token),
            r is Err ==> r == Err::<(), Error>(Error::MaxPoolAmountExceeded),
    {
        if is_long_token {
            if self.liquidity_pool.long_amount() > self.max_pool_amount_for_long_token {
                return Err(Error::MaxPoolAmountExceeded);
            }
        } else {
            if self.liquidity_pool.short_amount() > self.max_pool_amount_for_short_token {
                return Err(Error::MaxPoolAmountExceeded);
            }
        }
        Ok(())
    }

    /// Create a [`Swap`] of `token_in_amount` of the long token (or the short token) into the other token.
    pub fn swap(&self, is_token_in_long: bool, token_in_amount: u128, prices: Prices) -> (r: Result<
        Swap,
        Error,
    >)
        ensures
            r == swap_new_spec(is_token_in_long, token_in_amount, prices),
    {
        Swap::try_new(is_token_in_long, token_in_amount, prices)
    }
}

/// Whether the given side of the liquidity pool is within its max amount.
pub open spec fn pool_amount_valid(market: SwapMarket, is_long_token: bool) -> bool {
    if is_long_token {
        market.liquidity_pool.spec_long_amount() <= market.max_pool_amount_for_long_token
    } else {
        market.liquidity_pool.spec_short_amount() <= market.max_pool_amount_for_short_token
    }
}

/// Swap params.
#[derive(Debug, Clone, Copy)]
pub struct SwapParams {
    /// Whether the in token is the long token.
    pub is_token_in_long: bool,
    /// The amount of the in token.
    pub token_in_amount: u128,
    /// The prices.
    pub prices: Prices,
}

impl SwapParams {
    /// Get long token price.
    pub fn long_token_price(&self) -> (r: &u128)
        ensures
            *r == self.prices.long_token_price,
    {
        &self.prices.long_token_price
    }

    /// Get short token price.
    pub fn short_token_price(&self) -> (r: &u128)
        ensures
            *r == self.prices.short_token_price,
    {
        &self.prices.short_token_price
    }

    /// Whether the in token is long token.
    pub fn is_token_in_long(&self) -> (r: bool)
        ensures
            r == self.is_token_in_long,
    {
        self.is_token_in_long
    }

    /// Get the amount of in token.
    pub fn token_in_amount(&self) -> (r: &u128)
        ensures
            *r == self.token_in_amount,
    {
        &self.token_in_amount
    }
}

/// Report of the execution of swap.
#[derive(Debug, Clone, Copy)]
pub struct SwapReport {
    /// The swap params.
    pub params: SwapParams,
    /// The fees paid in the in token.
    pub token_in_fees: Fees,
    /// The amount of the out token.
    pub token_out_amount: u128,
    /// The price impact value.
    pub price_impact_value: i128,
    /// The amount taken from (positive impact) or paid to (negative impact) the swap impact pool.
    pub price_impact_amount: u128,
}

impl SwapReport {
    /// Get swap params.
    pub fn params(&self) -> (r: &SwapParams)
        ensures
            *r == self.params,
    {
        &self.params
    }

    /// Get token in fees.
    pub fn token_in_fees(&self) -> (r: &Fees)
        ensures
            *r == self.token_in_fees,
    {
        &self.token_in_fees
    }

    /// Get the amount of out token.
    pub fn token_out_amount(&self) -> (r: &u128)
        ensures
            *r == self.token_out_amount,
    {
        &self.token_out_amount
    }

    /// Get the price impact for the swap.
    pub fn price_impact(&self) -> (r: &i128)
        ensures
            *r == self.price_impact_value,
    {
        &self.price_impact_value
    }

    /// Get the price impact amount.
    pub fn price_impact_amount(&self) -> (r: &u128)
        ensures
            *r == self.price_impact_amount,
    {
        &self.price_impact_amount
    }
}

/// The usd value changes of both sides and the prices of the in and out tokens.
pub struct ReassignedValues {
    /// Usd value change of the long side.
    pub long_token_delta_value: i128,
    /// Usd value change of the short side.
    pub short_token_delta_value: i128,
    /// Price of the in token.
    pub token_in_price: u128,
    /// Price of the out token.
    pub token_out_price: u128,
}

impl ReassignedValues {
    fn new(
        long_token_delta_value: i128,
        short_token_delta_value: i128,
        token_in_price: u128,
        token_out_price: u128,
    ) -> (r: Self)
        ensures
            r == (ReassignedValues {
                long_token_delta_value,
                short_token_delta_value,
                token_in_price,
                token_out_price,
            }),
    {
        ReassignedValues {
            long_token_delta_value,
            short_token_delta_value,
            token_in_price,
            token_out_price,
        }
    }
}

/// A swap.
#[derive(Debug, Clone, Copy)]
pub struct Swap {
    /// The swap params.
    pub params: SwapParams,
}

/// The swap created for the arguments, or the error.
pub open spec fn swap_new_spec(is_token_in_long: bool, token_in_amount: u128, prices: Prices) -> Result<
    Swap,
    Error,
> {
    if token_in_amount == 0 {
        Err(Error::EmptySwap)
    } else if !prices_valid(prices) {
        Err(Error::InvalidPrices)
    } else {
        Ok(Swap { params: SwapParams { is_token_in_long, token_in_amount, prices } })
    }
}

/// The reassigned values of a swap (see [`Swap::execute`]).
pub open spec fn reassign_spec(params: SwapParams) -> Result<ReassignedValues, Error> {
    let in_price = if params.is_token_in_long {
        params.prices.long_token_price
    } else {
        params.prices.short_token_price
    };
    let out_price = if params.is_token_in_long {
        params.prices.short_token_price
    } else {
        params.prices.long_token_price
    };
    let v = params.token_in_amount * in_price;
    if v > u128::MAX {
        Err(Error::Computation)
    } else if v > i128::MAX {
        Err(Error::Convert)
    } else if params.is_token_in_long {
        Ok(
            ReassignedValues {
                long_token_delta_value: v as i128,
                short_token_delta_value: (-v) as i128,
                token_in_price: in_price,
                token_out_price: out_price,
            },
        )
    } else {
        Ok(
            ReassignedValues {
                long_token_delta_value: (-v) as i128,
                short_token_delta_value: v as i128,
                token_in_price: in_price,
                token_out_price: out_price,
            },
        )
    }
}

/// The price impact value of a swap.
pub open spec fn price_impact_spec(
    market: SwapMarket,
    params: SwapParams,
    rv: ReassignedValues,
    u: int,
) -> Result<i128, Error> {
    match pool_delta_with_values_spec(
        market.liquidity_pool,
        rv.long_token_delta_value as int,
        rv.short_token_delta_value as int,
        params.prices.long_token_price as int,
        params.prices.short_token_price as int,
    ) {
        None => Err(Error::Computation),
        Some(d) => match swap_impact_spec(d, market.swap_impact_params, u) {
            None => Err(Error::Computation),
            Some(i) => Ok(i),
        },
    }
}

/// The fees charged on the in token, and the claimable fee pool after recording the receiver fee.
pub open spec fn charge_fees_spec(
    market: SwapMarket,
    params: SwapParams,
    is_positive_impact: bool,
    u: int,
) -> Result<(u128, Fees, Pool), Error> {
    match apply_fees_spec(market.swap_fee_params, is_positive_impact, params.token_in_amount as int, u) {
        None => Err(Error::Computation),
        Some((after, fees)) => {
            if fees.fee_receiver_amount > i128::MAX {
                Err(Error::Convert)
            } else {
                match market.claimable_fee_pool.spec_with_delta(
                    params.is_token_in_long,
                    fees.fee_receiver_amount as int,
                ) {
                    None => Err(Error::Computation),
                    Some(p) => Ok((after, fees, p)),
                }
            }
        },
    }
}

/// The amounts of a swap once the price impact amount is known:
/// `(token_in_amount, token_out_amount, pool_amount_out)`.
pub open spec fn swap_amounts_spec(
    is_positive_impact: bool,
    amount_after_fees: int,
    price_impact_amount: int,
    in_price: int,
    out_price: int,
) -> Result<(u128, u128, u128), Error> {
    if is_positive_impact {
        match mul_div_spec(amount_after_fees, in_price, out_price) {
            None => Err(Error::Computation),
            Some(pool_out) => {
                if pool_out + price_impact_amount > u128::MAX {
                    Err(Error::Computation)
                } else {
                    Ok(
                        (
                            amount_after_fees as u128,
                            (pool_out + price_impact_amount) as u128,
                            pool_out,
                        ),
                    )
                }
            },
        }
    } else {
        if amount_after_fees < price_impact_amount {
            Err(Error::Computation)
        } else {
            match mul_div_spec(amount_after_fees - price_impact_amount, in_price, out_price) {
                None => Err(Error::Computation),
                Some(out) => Ok(((amount_after_fees - price_impact_amount) as u128, out, out)),
            }
        }
    }
}

/// The liquidity pool after the in amount (with the fee for the pool) comes in and the
/// out amount leaves.
pub open spec fn liquidity_after_spec(
    pool: Pool,
    is_token_in_long: bool,
    token_in_amount: int,
    fee_for_pool: int,
    pool_amount_out: int,
) -> Result<Pool, Error> {
    if token_in_amount + fee_for_pool > u128::MAX {
        Err(Error::Overflow)
    } else if token_in_amount + fee_for_pool > i128::MAX {
        Err(Error::Convert)
    } else {
        match pool.spec_with_delta(is_token_in_long, token_in_amount + fee_for_pool) {
            None => Err(Error::Computation),
            Some(p1) => {
                if pool_amount_out > i128::MAX {
                    Err(Error::Convert)
                } else {
                    match p1.spec_with_delta(!is_token_in_long, -pool_amount_out) {
                        None => Err(Error::Computation),
                        Some(p2) => Ok(p2),
                    }
                }
            },
        }
    }
}

/// A swap that would pay nothing out leaves the liquidity pool as it was: what would have
/// entered it (the in amount left after fees and impact, and the fee for the pool) goes to the
/// fee receiver instead. The claimable fee pool and the fees after that.
pub open spec fn dust_fees_spec(fee_pool: Pool, is_token_in_long: bool, fees: Fees, token_in_amount: int) -> Result<
    (Pool, Fees),
    Error,
> {
    let moved = token_in_amount + fees.fee_amount_for_pool;
    if moved > i128::MAX {
        Err(Error::Convert)
    } else {
        match fee_pool.spec_with_delta(is_token_in_long, moved) {
            None => Err(Error::Computation),
            Some(p) => Ok(
                (
                    p,
                    Fees { fee_amount_for_pool: 0, fee_receiver_amount: (fees.fee_receiver_amount + moved) as u128 },
                ),
            ),
        }
    }
}

/// The result of a swap: the market after it and the report, or the error.
pub open spec fn swap_execute_spec(market: SwapMarket, params: SwapParams, u: int) -> Result<
    (SwapMarket, SwapReport),
    Error,
> {
    match reassign_spec(params) {
        Err(e) => Err(e),
        Ok(rv) => match price_impact_spec(market, params, rv, u) {
            Err(e) => Err(e),
            Ok(impact) => match charge_fees_spec(market, params, impact > 0, u) {
                Err(e) => Err(e),
                Ok((after, fees, fee_pool)) => {
                    let impact_side = if impact > 0 {
                        !params.is_token_in_long
                    } else {
                        params.is_token_in_long
                    };
                    let impact_price = if impact > 0 {
                        rv.token_out_price
                    } else {
                        rv.token_in_price
                    };
                    match apply_swap_impact_spec(
                        market.swap_impact_pool,
                        impact_side,
                        Price { min: impact_price, max: impact_price },
                        impact as int,
                    ) {
                        Err(e) => Err(e),
                        Ok((impact_pool, impact_amount)) => match swap_amounts_spec(
                            impact > 0,
                            after as int,
                            impact_amount as int,
                            rv.token_in_price as int,
                            rv.token_out_price as int,
                        ) {
                            Err(e) => Err(e),
                            Ok((in_amount, out_amount, pool_out)) => if out_amount == 0 {
                                match dust_fees_spec(fee_pool, params.is_token_in_long, fees, in_amount as int) {
                                    Err(e) => Err(e),
                                    Ok((dust_pool, dust_fees)) => {
                                        let next = SwapMarket {
                                            swap_impact_pool: impact_pool,
                                            claimable_fee_pool: dust_pool,
                                            ..market
                                        };
                                        if !pool_amount_valid(next, params.is_token_in_long) {
                                            Err(Error::MaxPoolAmountExceeded)
                                        } else {
                                            Ok(
                                                (
                                                    next,
                                                    SwapReport {
                                                        params,
                                                        token_in_fees: dust_fees,
                                                        token_out_amount: out_amount,
                                                        price_impact_value: impact,
                                                        price_impact_amount: impact_amount,
                                                    },
                                                ),
                                            )
                                        }
                                    },
                                }
                            } else { match liquidity_after_spec(
                                market.liquidity_pool,
                                params.is_token_in_long,
                                in_amount as int,
                                fees.fee_amount_for_pool as int,
                                pool_out as int,
                            ) {
                                Err(e) => Err(e),
                                Ok(liquidity) => {
                                    let next = SwapMarket {
                                        liquidity_pool: liquidity,
                                        swap_impact_pool: impact_pool,
                                        claimable_fee_pool: fee_pool,
                                        ..market
                                    };
                                    if !pool_amount_valid(next, params.is_token_in_long) {
                                        Err(Error::MaxPoolAmountExceeded)
                                    } else {
                                        Ok(
                                            (
                                                next,
                                                SwapReport {
                                                    params,
                                                    token_in_fees: fees,
                                                    token_out_amount: out_amount,
                                                    price_impact_value: impact,
                                                    price_impact_amount: impact_amount,
                                                },
                                            ),
                                        )
                                    }
                                },
                            } },
                        },
                    }
                },
            },
        },
    }
}

/// Charge what a swap that pays nothing out would have put into the liquidity pool as a fee for
/// the receiver (see [`dust_fees_spec`]).
fn charge_dust(market: &mut SwapMarket, is_token_in_long: bool, fees: Fees, token_in_amount: u128) -> (r: Result<
    Fees,
    Error,
>)
    requires
        token_in_amount + fees.fee_amount_for_pool + fees.fee_receiver_amount <= u128::MAX,
    ensures
        match dust_fees_spec(old(market).claimable_fee_pool, is_token_in_long, fees, token_in_amount as int) {
            Ok((p, f)) => r == Ok::<Fees, Error>(f) && *final(market) == (SwapMarket {
                claimable_fee_pool: p,
                ..*old(market)
            }),
            Err(e) => r == Err::<Fees, Error>(e) && *final(market) == *old(market),
        },
{
    let moved = match to_signed(token_in_amount + fees.fee_amount_for_pool) {
        None => return Err(Error::Convert),
        Some(v) => v,
    };
    match market.claimable_fee_pool.apply_delta_amount(is_token_in_long, &moved) {
        Err(e) => return Err(e),
        Ok(()) => {},
    }
    Ok(Fees::new(0, fees.fee_receiver_amount + token_in_amount + fees.fee_amount_for_pool))
}

impl Swap {
    /// Create a new swap: the in amount must be non-zero and the prices valid.
    pub fn try_new(is_token_in_long: bool, token_in_amount: u128, prices: Prices) -> (r: Result<
        Self,
        Error,
    >)
        ensures
            r == swap_new_spec(is_token_in_long, token_in_amount, prices),
    {
        if token_in_amount == 0 {
            return Err(Error::EmptySwap);
        }
        match prices.validate() {
            Err(e) => return Err(e),
            Ok(()) => {},
        }
        Ok(Swap { params: SwapParams { is_token_in_long, token_in_amount, prices } })
    }

    /// Assign the amounts of `token_in` and `token_out` to `long_token` and `short_token`, respectively,
    /// and assgin the prices of `long_token` and `short_token` to `token_in` and `token_out`.
    fn reassign_values(&self) -> (r: Result<ReassignedValues, Error>)
        ensures
            r == reassign_spec(self.params),
    {
        if self.params.is_token_in_long {
            let v = match self.params.token_in_amount.checked_mul(*self.params.long_token_price()) {
                None => return Err(Error::Computation),
                Some(v) => v,
            };
            let long_delta_value = match to_signed(v) {
                None => return Err(Error::Convert),
                Some(v) => v,
            };
            Ok(
                ReassignedValues::new(
                    long_delta_value,
                    -long_delta_value,
                    *self.params.long_token_price(),
                    *self.params.short_token_price(),
                ),
            )
        } else {
            let v = match self.params.token_in_amount.checked_mul(*self.params.short_token_price()) {
                None => return Err(Error::Computation),
                Some(v) => v,
            };
            let short_delta_value = match to_signed(v) {
                None => return Err(Error::Convert),
                Some(v) => v,
            };
            Ok(
                ReassignedValues::new(
                    -short_delta_value,
                    short_delta_value,
                    *self.params.short_token_price(),
                    *self.params.long_token_price(),
                ),
            )
        }
    }

    fn charge_fees<const DECIMALS: u8>(&self, market: &mut SwapMarket, is_positive_impact: bool) -> (r:
        Result<(u128, Fees), Error>)
        requires
            DECIMALS <= MAX_DECIMALS,
        ensures
            match charge_fees_spec(*old(market), self.params, is_positive_impact, pow10(DECIMALS as nat) as int) {
                Ok((after, fees, p)) => r == Ok::<(u128, Fees), Error>((after, fees)) && *final(market)
                    == (SwapMarket { claimable_fee_pool: p, ..*old(market) }),
                Err(e) => r == Err::<(u128, Fees), Error>(e) && *final(market) == *old(market),
            },
    {
        let (amount_after_fees, fees) = match market.swap_fee_params.apply_fees::<DECIMALS>(
            is_positive_impact,
            &self.params.token_in_amount,
        ) {
            None => return Err(Error::Computation),
            Some(x) => x,
        };
        let receiver = match to_signed(*fees.fee_receiver_amount()) {
            None => return Err(Error::Convert),
            Some(v) => v,
        };
        match market.claimable_fee_pool.apply_delta_amount(self.params.is_token_in_long, &receiver) {
            Err(e) => Err(e),
            Ok(()) => Ok((amount_after_fees, fees)),
        }
    }

    /// Execute the swap on `market`.
    ///
    /// The price impact of the change of the liquidity pool decides the fee factor; a positive impact is
    /// paid to the user from the swap impact pool (capped by it) in out tokens, a negative impact is paid
    /// by the user into the swap impact pool in in tokens. The fee for the receiver goes to the claimable
    /// fee pool, the fee for the pool stays in the liquidity pool. A swap that would pay nothing out
    /// leaves the liquidity pool as it was: what would have entered it goes to the fee receiver. On
    /// error the market is left unchanged, as a failed instruction leaves its accounts.
    ///
    /// After the pools are updated only the max pool amount of the in token is checked; the
    /// reserve and max PnL checks on the market's open interest are not made here.
    #[verifier::rlimit(40)]
    pub fn execute<const DECIMALS: u8>(self, market: &mut SwapMarket) -> (r: Result<SwapReport, Error>)
        requires
            DECIMALS <= MAX_DECIMALS,
        ensures
            match swap_execute_spec(*old(market), self.params, pow10(DECIMALS as nat) as int) {
                Ok((m, report)) => r == Ok::<SwapReport, Error>(report) && *final(market) == m,
                Err(e) => r == Err::<SwapReport, Error>(e) && *final(market) == *old(market),
            },
    {
        let mut m = *market;
        let rv = match self.reassign_values() {
            Err(e) => return Err(e),
            Ok(rv) => rv,
        };
        let delta = match PoolDelta::try_new_with_values(
            &m.liquidity_pool,
            rv.long_token_delta_value,
            rv.short_token_delta_value,
            self.params.long_token_price(),
            self.params.short_token_price(),
        ) {
            Err(_) => return Err(Error::Computation),
            Ok(d) => d,
        };
        let price_impact = match delta.swap_impact::<DECIMALS>(&m.swap_impact_params) {
            None => return Err(Error::Computation),
            Some(i) => i,
        };
        let (amount_after_fees, fees) = match self.charge_fees::<DECIMALS>(&mut m, price_impact > 0) {
            Err(e) => return Err(e),
            Ok(x) => x,
        };
        let token_in_amount;
        let token_out_amount;
        let pool_amount_out;
        let price_impact_amount;
        if price_impact > 0 {
            price_impact_amount = match m.apply_swap_impact_value_with_cap(
                !self.params.is_token_in_long,
                &Price::exact(rv.token_out_price),
                &price_impact,
            ) {
                Err(e) => return Err(e),
                Ok(a) => a,
            };
            token_in_amount = amount_after_fees;
            pool_amount_out = match checked_mul_div(
                token_in_amount,
                rv.token_in_price,
                rv.token_out_price,
            ) {
                None => return Err(Error::Computation),
                Some(v) => v,
            };
            token_out_amount = match pool_amount_out.checked_add(price_impact_amount) {
                None => return Err(Error::Computation),
                Some(v) => v,
            };
        } else {
            price_impact_amount = match m.apply_swap_impact_value_with_cap(
                self.params.is_token_in_long,
                &Price::exact(rv.token_in_price),
                &price_impact,
            ) {
                Err(e) => return Err(e),
                Ok(a) => a,
            };
            token_in_amount = match amount_after_fees.checked_sub(price_impact_amount) {
                None => return Err(Error::Computation),
                Some(v) => v,
            };
            token_out_amount = match checked_mul_div(
                token_in_amount,
                rv.token_in_price,
                rv.token_out_price,
            ) {
                None => return Err(Error::Computation),
                Some(v) => v,
            };
            pool_amount_out = token_out_amount;
        }
        if token_out_amount == 0 {
            let dust_fees = match charge_dust(&mut m, self.params.is_token_in_long, fees, token_in_amount) {
                Err(e) => return Err(e),
                Ok(f) => f,
            };
            match m.validate_pool_amount(self.params.is_token_in_long) {
                Err(e) => return Err(e),
                Ok(()) => {},
            }
            *market = m;
            return Ok(
                SwapReport {
                    params: self.params,
                    price_impact_value: price_impact,
                    token_in_fees: dust_fees,
                    token_out_amount,
                    price_impact_amount,
                },
            );
        }
        let in_delta = match token_in_amount.checked_add(fees.fee_amount_for_pool) {
            None => return Err(Error::Overflow),
            Some(v) => v,
        };
        let in_delta = match to_signed(in_delta) {
            None => return Err(Error::Convert),
            Some(v) => v,
        };
        match m.liquidity_pool.apply_delta_amount(self.params.is_token_in_long, &in_delta) {
            Err(e) => return Err(e),
            Ok(()) => {},
        }
        let out_delta = match to_signed(pool_amount_out) {
            None => return Err(Error::Convert),
            Some(v) => v,
        };
        match m.liquidity_pool.apply_delta_amount(!self.params.is_token_in_long, &-out_delta) {
            Err(e) => return Err(e),
            Ok(()) => {},
        }
        match m.validate_pool_amount(self.params.is_token_in_long) {
            Err(e) => return Err(e),
            Ok(()) => {},
        }
        *market = m;
        Ok(
            SwapReport {
                params: self.params,
                price_impact_value: price_impact,
                token_in_fees: fees,
                token_out_amount,
                price_impact_amount,
            },
        )
    }
}

/// The amount of one side of a pool that is not pure.
pub open spec fn side(pool: Pool, is_long: bool) -> int {
    if is_long {
        pool.long_token_amount as int
    } else {
        pool.short_token_amount as int
    }
}

/// A swap moves tokens between the pools and the user without creating or losing any
/// (for pools that are not pure):
/// - the in side of the liquidity pool grows by the in amount less the receiver fee, and
///   less the impact amount when the impact is not positive;
/// - the out side of the liquidity pool shrinks by the out amount, less the impact amount when
///   the impact is positive (that part comes from the swap impact pool);
/// - the swap impact pool pays the impact amount on the out side (positive impact) or receives it
///   on the in side (otherwise);
/// - the claimable fee pool receives the receiver fee on the in side.
pub proof fn lemma_swap_conservation(market: SwapMarket, params: SwapParams, u: int)
    requires
        !market.liquidity_pool.is_pure,
        !market.swap_impact_pool.is_pure,
        !market.claimable_fee_pool.is_pure,
        swap_execute_spec(market, params, u) is Ok,
    ensures
        ({
            let (m, rep) = swap_execute_spec(market, params, u).unwrap();
            let is_in = params.is_token_in_long;
            let positive = rep.price_impact_value > 0;
            &&& side(m.liquidity_pool, is_in) == side(market.liquidity_pool, is_in)
                + params.token_in_amount - rep.token_in_fees.fee_receiver_amount - (if positive {
                0
            } else {
                rep.price_impact_amount as int
            })
            &&& side(m.liquidity_pool, !is_in) + rep.token_out_amount - (if positive {
                rep.price_impact_amount as int
            } else {
                0
            }) == side(market.liquidity_pool, !is_in)
            &&& positive ==> side(m.swap_impact_pool, !is_in) + rep.price_impact_amount == side(
                market.swap_impact_pool,
                !is_in,
            ) && side(m.swap_impact_pool, is_in) == side(market.swap_impact_pool, is_in)
            &&& !positive ==> side(m.swap_impact_pool, is_in) == side(market.swap_impact_pool, is_in)
                + rep.price_impact_amount && side(m.swap_impact_pool, !is_in) == side(
                market.swap_impact_pool,
                !is_in,
            )
            &&& side(m.claimable_fee_pool, is_in) == side(market.claimable_fee_pool, is_in)
                + rep.token_in_fees.fee_receiver_amount
            &&& side(m.claimable_fee_pool, !is_in) == side(market.claimable_fee_pool, !is_in)
            &&& rep.params == params
        }),
{
    let rv = reassign_spec(params).unwrap();
    let impact = price_impact_spec(market, params, rv, u).unwrap();
    let (after, fees, fee_pool) = charge_fees_spec(market, params, impact > 0, u).unwrap();
    let fee_total = mul_div_spec(
        params.token_in_amount as int,
        crate::params::fee_factor_spec(market.swap_fee_params, impact > 0) as int,
        u,
    ).unwrap();
    assert(after + fees.fee_amount_for_pool + fees.fee_receiver_amount == params.token_in_amount);
    let impact_side = if impact > 0 {
        !params.is_token_in_long
    } else {
        params.is_token_in_long
    };
    let impact_price = if impact > 0 {
        rv.token_out_price
    } else {
        rv.token_in_price
    };
    let amount = swap_impact_amount_spec(
        market.swap_impact_pool,
        impact_side,
        Price { min: impact_price, max: impact_price },
        impact as int,
    ).unwrap();
    if impact > 0 {
        assert(amount >= 0) by (nonlinear_arith)
            requires
                amount as int == (impact as int) / (impact_price as int) || amount as int == (if impact_side {
                    market.swap_impact_pool.spec_long_amount()
                } else {
                    market.swap_impact_pool.spec_short_amount()
                }),
                impact > 0,
                impact_price > 0,
        ;
    } else if impact < 0 {
        let b = impact - impact_price + 1;
        assert(-((-b) / (impact_price as int)) <= 0) by (nonlinear_arith)
            requires
                b < 0,
                impact_price > 0,
        ;
    }
}

/// The fee of a swap is charged on the in amount at the fee factor of the sign of its price
/// impact: the positive impact factor when the impact is positive, the negative impact factor
/// otherwise. The receiver takes its factor of that fee, and the pool the rest (a swap that pays
/// nothing out charges everything that would have entered the pool to the receiver instead). The
/// out amount is the in amount left after the fee (and after a negative impact) at the in price
/// over the out price, plus a positive impact amount.
pub proof fn lemma_swap_fees(market: SwapMarket, params: SwapParams, u: int)
    requires
        u >= 1,
        swap_execute_spec(market, params, u) is Ok,
    ensures
        ({
            let (m, rep) = swap_execute_spec(market, params, u).unwrap();
            let positive = rep.price_impact_value > 0;
            let factor = if positive {
                market.swap_fee_params.positive_impact_fee_factor
            } else {
                market.swap_fee_params.negative_impact_fee_factor
            };
            let fee = params.token_in_amount * factor / u;
            let receiver = fee * market.swap_fee_params.fee_receiver_factor / u;
            let in_price: int = if params.is_token_in_long {
                params.prices.long_token_price as int
            } else {
                params.prices.short_token_price as int
            };
            let out_price: int = if params.is_token_in_long {
                params.prices.short_token_price as int
            } else {
                params.prices.long_token_price as int
            };
            let left = params.token_in_amount - fee - (if positive {
                0
            } else {
                rep.price_impact_amount as int
            });
            &&& rep.token_out_amount > 0 ==> rep.token_in_fees.fee_amount_for_pool == fee - receiver
                && rep.token_in_fees.fee_receiver_amount == receiver
            &&& rep.token_out_amount == 0 ==> rep.token_in_fees.fee_amount_for_pool == 0
                && rep.token_in_fees.fee_receiver_amount == params.token_in_amount - (if positive {
                0
            } else {
                rep.price_impact_amount as int
            })
            &&& rep.token_out_amount == left * in_price / out_price + (if positive {
                rep.price_impact_amount as int
            } else {
                0
            })
        }),
{
    let rv = reassign_spec(params).unwrap();
    let impact = price_impact_spec(market, params, rv, u).unwrap();
    let (after, fees, fee_pool) = charge_fees_spec(market, params, impact > 0, u).unwrap();
    assert(after + fees.fee_amount_for_pool + fees.fee_receiver_amount == params.token_in_amount);
}

} // verus!
