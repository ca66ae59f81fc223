//! Usd values of a pool before and after a change, and the price impact of the change.
use vstd::prelude::*;

use crate::error::Error;
use crate::fixed::{pow10, MAX_DECIMALS};
use crate::num::{abs_diff_spec, checked_add_with_signed, checked_mul_with_signed, diff, to_signed};
use crate::params::{adjusted_factors_spec, PriceImpactParams};
use crate::pool::Pool;
use crate::utils::{apply_factors, apply_factors_spec, lemma_apply_factors_mono};

verus! {

/// Usd values of pool.
#[derive(Debug, Clone, Copy)]
pub struct PoolValue<T> {
    /// Long token usd value.
    pub long_token_usd_value: T,
    /// Short token usd value.
    pub short_token_usd_value: T,
}

impl<T> PoolValue<T> {
    /// Get long token usd value.
    pub fn long_value(&self) -> (r: &T)
        ensures
            *r == self.long_token_usd_value,
    {
        &self.long_token_usd_value
    }

    /// Get short token usd value.
    pub fn short_value(&self) -> (r: &T)
        ensures
            *r == self.short_token_usd_value,
    {
        &self.short_token_usd_value
    }
}

/// The usd values of a pool at the given prices.
pub open spec fn pool_value_spec(pool: Pool, long_price: int, short_price: int) -> Option<
    PoolValue<u128>,
> {
    if pool.spec_long_amount() * long_price > u128::MAX || pool.spec_short_amount() * short_price
        > u128::MAX {
        None
    } else {
        Some(
            PoolValue {
                long_token_usd_value: (pool.spec_long_amount() * long_price) as u128,
                short_token_usd_value: (pool.spec_short_amount() * short_price) as u128,
            },
        )
    }
}

impl PoolValue<u128> {
    /// Get usd value (abs) difference.
    pub fn diff_value(&self) -> (r: u128)
        ensures
            r == abs_diff_spec(self.long_token_usd_value as int, self.short_token_usd_value as int),
    {
        diff(self.long_token_usd_value, self.short_token_usd_value)
    }

    /// Create a new [`PoolValue`] from the given pool and prices.
    pub fn try_new(pool: &Pool, long_token_price: &u128, short_token_price: &u128) -> (r: Result<
        Self,
        Error,
    >)
        ensures
            r matches Ok(v) ==> pool_value_spec(*pool, *long_token_price as int, *short_token_price as int)
                == Some(v),
            r is Err ==> r == Err::<Self, Error>(Error::Computation) && pool_value_spec(
                *pool,
                *long_token_price as int,
                *short_token_price as int,
            ) is None,
    {
        let long_token_usd_value = match pool.long_token_usd_value(*long_token_price) {
            None => return Err(Error::Computation),
            Some(v) => v,
        };
        let short_token_usd_value = match pool.short_token_usd_value(*short_token_price) {
            None => return Err(Error::Computation),
            Some(v) => v,
        };
        Ok(PoolValue { long_token_usd_value, short_token_usd_value })
    }
}

/// Delta of pool usd values.
#[derive(Debug, Clone, Copy)]
pub struct PoolDelta {
    /// The values before the change.
    pub current: PoolValue<u128>,
    /// The values after the change.
    pub next: PoolValue<u128>,
    /// The change of the values.
    pub delta: PoolValue<i128>,
}

/// The pool delta for the given usd value changes of both sides.
pub open spec fn pool_delta_with_values_spec(
    pool: Pool,
    long_delta_value: int,
    short_delta_value: int,
    long_price: int,
    short_price: int,
) -> Option<PoolDelta> {
    match pool_value_spec(pool, long_price, short_price) {
        None => None,
        Some(current) => {
            let next_long = current.long_token_usd_value + long_delta_value;
            let next_short = current.short_token_usd_value + short_delta_value;
            if 0 <= next_long <= u128::MAX && 0 <= next_short <= u128::MAX {
                Some(
                    PoolDelta {
                        current,
                        next: PoolValue {
                            long_token_usd_value: next_long as u128,
                            short_token_usd_value: next_short as u128,
                        },
                        delta: PoolValue {
                            long_token_usd_value: long_delta_value as i128,
                            short_token_usd_value: short_delta_value as i128,
                        },
                    },
                )
            } else {
                None
            }
        },
    }
}

/// Whether the larger side stays the larger side.
pub open spec fn is_same_side_rebalance_spec(d: PoolDelta) -> bool {
    (d.current.long_token_usd_value <= d.current.short_token_usd_value) == (
    d.next.long_token_usd_value <= d.next.short_token_usd_value)
}

/// The signed impact from the two impact magnitudes.
pub open spec fn signed_impact(has_positive_impact: bool, a: int, b: int) -> Option<i128> {
    if abs_diff_spec(a, b) > i128::MAX {
        None
    } else if has_positive_impact {
        Some(abs_diff_spec(a, b) as i128)
    } else {
        Some((-abs_diff_spec(a, b)) as i128)
    }
}

/// The price impact of a same-side rebalance.
pub open spec fn same_side_impact_spec(d: PoolDelta, params: PriceImpactParams, u: int) -> Option<
    i128,
> {
    let initial = abs_diff_spec(
        d.current.long_token_usd_value as int,
        d.current.short_token_usd_value as int,
    );
    let next = abs_diff_spec(d.next.long_token_usd_value as int, d.next.short_token_usd_value as int);
    let has_positive_impact = next < initial;
    let factor = if has_positive_impact {
        adjusted_factors_spec(params).0
    } else {
        adjusted_factors_spec(params).1
    };
    match (
        apply_factors_spec(initial, factor as int, params.exponent as int, u),
        apply_factors_spec(next, factor as int, params.exponent as int, u),
    ) {
        (Some(i), Some(n)) => signed_impact(has_positive_impact, i as int, n as int),
        _ => None,
    }
}

/// The price impact of a rebalance that crosses over (the larger side becomes the smaller one).
pub open spec fn cross_over_impact_spec(d: PoolDelta, params: PriceImpactParams, u: int) -> Option<
    i128,
> {
    let initial = abs_diff_spec(
        d.current.long_token_usd_value as int,
        d.current.short_token_usd_value as int,
    );
    let next = abs_diff_spec(d.next.long_token_usd_value as int, d.next.short_token_usd_value as int);
    match (
        apply_factors_spec(
            initial,
            adjusted_factors_spec(params).0 as int,
            params.exponent as int,
            u,
        ),
        apply_factors_spec(next, adjusted_factors_spec(params).1 as int, params.exponent as int, u),
    ) {
        (Some(p), Some(n)) => signed_impact(p > n, p as int, n as int),
        _ => None,
    }
}

/// The price impact of a pool change.
pub open spec fn swap_impact_spec(d: PoolDelta, params: PriceImpactParams, u: int) -> Option<i128> {
    if is_same_side_rebalance_spec(d) {
        same_side_impact_spec(d, params, u)
    } else {
        cross_over_impact_spec(d, params, u)
    }
}

fn signed_diff(has_positive_impact: bool, a: u128, b: u128) -> (r: Option<i128>)
    ensures
        r == signed_impact(has_positive_impact, a as int, b as int),
{
    let d = match to_signed(diff(a, b)) {
        None => return None,
        Some(d) => d,
    };
    if has_positive_impact {
        Some(d)
    } else {
        Some(-d)
    }
}

impl PoolDelta {
    /// Create a new [`PoolDelta`] from the token amount changes of both sides.
    pub fn try_new(
        pool: &Pool,
        long_token_delta_amount: &i128,
        short_token_delta_amount: &i128,
        long_token_price: &u128,
        short_token_price: &u128,
    ) -> (r: Result<Self, Error>)
        ensures
            r matches Ok(d) ==> (*long_token_price) * (*long_token_delta_amount) <= i128::MAX && (
            *long_token_price) * (*long_token_delta_amount) >= i128::MIN && (*short_token_price) * (
            *short_token_delta_amount) <= i128::MAX && (*short_token_price) * (
            *short_token_delta_amount) >= i128::MIN && pool_delta_with_values_spec(
                *pool,
                (*long_token_price) * (*long_token_delta_amount),
                (*short_token_price) * (*short_token_delta_amount),
                *long_token_price as int,
                *short_token_price as int,
            ) == Some(d),
            r is Err ==> r == Err::<Self, Error>(Error::Computation),
            r is Err ==> !(i128::MIN <= (*long_token_price) * (*long_token_delta_amount) <= i128::MAX)
                || !(i128::MIN <= (*short_token_price) * (*short_token_delta_amount) <= i128::MAX)
                || pool_delta_with_values_spec(
                *pool,
                (*long_token_price) * (*long_token_delta_amount),
                (*short_token_price) * (*short_token_delta_amount),
                *long_token_price as int,
                *short_token_price as int,
            ) is None,
    {
        let current = match PoolValue::try_new(pool, long_token_price, short_token_price) {
            Err(e) => return Err(e),
            Ok(c) => c,
        };
        let delta_long = match checked_mul_with_signed(*long_token_price, *long_token_delta_amount) {
            None => return Err(Error::Computation),
            Some(v) => v,
        };
        let delta_short = match checked_mul_with_signed(
            *short_token_price,
            *short_token_delta_amount,
        ) {
            None => return Err(Error::Computation),
            Some(v) => v,
        };
        Self::from_current(current, delta_long, delta_short)
    }

    /// Create a new [`PoolDelta`] from the usd value changes of both sides.
    pub fn try_new_with_values(
        pool: &Pool,
        long_delta_value: i128,
        short_delta_value: i128,
        long_token_price: &u128,
        short_token_price: &u128,
    ) -> (r: Result<Self, Error>)
        ensures
            r matches Ok(d) ==> pool_delta_with_values_spec(
                *pool,
                long_delta_value as int,
                short_delta_value as int,
                *long_token_price as int,
                *short_token_price as int,
            ) == Some(d),
            r is Err ==> r == Err::<Self, Error>(Error::Computation) && pool_delta_with_values_spec(
                *pool,
                long_delta_value as int,
                short_delta_value as int,
                *long_token_price as int,
                *short_token_price as int,
            ) is None,
    {
        let current = match PoolValue::try_new(pool, long_token_price, short_token_price) {
            Err(e) => return Err(e),
            Ok(c) => c,
        };
        Self::from_current(current, long_delta_value, short_delta_value)
    }

    fn from_current(current: PoolValue<u128>, delta_long: i128, delta_short: i128) -> (r: Result<
        Self,
        Error,
    >)
        ensures
            ({
                let next_long = current.long_token_usd_value + delta_long;
                let next_short = current.short_token_usd_value + delta_short;
                if 0 <= next_long <= u128::MAX && 0 <= next_short <= u128::MAX {
                    r == Ok::<PoolDelta, Error>(
                        PoolDelta {
                            current,
                            next: PoolValue {
                                long_token_usd_value: next_long as u128,
                                short_token_usd_value: next_short as u128,
                            },
                            delta: PoolValue {
                                long_token_usd_value: delta_long,
                                short_token_usd_value: delta_short,
                            },
                        },
                    )
                } else {
                    r == Err::<PoolDelta, Error>(Error::Computation)
                }
            }),
    {
        let next_long = match checked_add_with_signed(current.long_token_usd_value, delta_long) {
            None => return Err(Error::Computation),
            Some(v) => v,
        };
        let next_short = match checked_add_with_signed(current.short_token_usd_value, delta_short) {
            None => return Err(Error::Computation),
            Some(v) => v,
        };
        Ok(
            PoolDelta {
                current,
                next: PoolValue { long_token_usd_value: next_long, short_token_usd_value: next_short },
                delta: PoolValue { long_token_usd_value: delta_long, short_token_usd_value: delta_short },
            },
        )
    }

    /// Get delta values.
    pub fn delta(&self) -> (r: &PoolValue<i128>)
        ensures
            *r == self.delta,
    {
        &self.delta
    }

    /// Initial diff usd value.
    pub fn initial_diff_value(&self) -> (r: u128)
        ensures
            r == abs_diff_spec(
                self.current.long_token_usd_value as int,
                self.current.short_token_usd_value as int,
            ),
    {
        self.current.diff_value()
    }

    /// Next diff usd value.
    pub fn next_diff_value(&self) -> (r: u128)
        ensures
            r == abs_diff_spec(self.next.long_token_usd_value as int, self.next.short_token_usd_value as int),
    {
        self.next.diff_value()
    }

    /// Returns whether it is a same side rebalance.
    pub fn is_same_side_rebalance(&self) -> (r: bool)
        ensures
            r == is_same_side_rebalance_spec(*self),
            r == ((self.current.long_token_usd_value <= self.current.short_token_usd_value) == (
            self.next.long_token_usd_value <= self.next.short_token_usd_value)),
    {
        (self.current.long_token_usd_value <= self.current.short_token_usd_value) == (
        self.next.long_token_usd_value <= self.next.short_token_usd_value)
    }

    /// Calculate swap impact: positive when the change reduces the imbalance of the pool.
    pub fn swap_impact<const DECIMALS: u8>(&self, params: &PriceImpactParams) -> (r: Option<i128>)
        requires
            DECIMALS <= MAX_DECIMALS,
        ensures
            r == swap_impact_spec(*self, *params, pow10(DECIMALS as nat) as int),
    {
        if self.is_same_side_rebalance() {
            self.swap_impact_for_same_side_rebalance::<DECIMALS>(params)
        } else {
            self.swap_impact_for_cross_over_rebalance::<DECIMALS>(params)
        }
    }

    fn swap_impact_for_same_side_rebalance<const DECIMALS: u8>(
        &self,
        params: &PriceImpactParams,
    ) -> (r: Option<i128>)
        requires
            DECIMALS <= MAX_DECIMALS,
        ensures
            r == same_side_impact_spec(*self, *params, pow10(DECIMALS as nat) as int),
    {
        let initial = self.initial_diff_value();
        let next = self.next_diff_value();
        let has_positive_impact = next < initial;
        let (positive_factor, negative_factor) = params.adjusted_factors();
        let factor = if has_positive_impact {
            positive_factor
        } else {
            negative_factor
        };
        let exponent_factor = *params.exponent();
        let initial = match apply_factors::<DECIMALS>(initial, factor, exponent_factor) {
            None => return None,
            Some(v) => v,
        };
        let next = match apply_factors::<DECIMALS>(next, factor, exponent_factor) {
            None => return None,
            Some(v) => v,
        };
        signed_diff(has_positive_impact, initial, next)
    }

    fn swap_impact_for_cross_over_rebalance<const DECIMALS: u8>(
        &self,
        params: &PriceImpactParams,
    ) -> (r: Option<i128>)
        requires
            DECIMALS <= MAX_DECIMALS,
        ensures
            r == cross_over_impact_spec(*self, *params, pow10(DECIMALS as nat) as int),
    {
        let initial = self.initial_diff_value();
        let next = self.next_diff_value();
        let (positive_factor, negative_factor) = params.adjusted_factors();
        let exponent_factor = *params.exponent();
        let positive_impact = match apply_factors::<DECIMALS>(
            initial,
            positive_factor,
            exponent_factor,
        ) {
            None => return None,
            Some(v) => v,
        };
        let negative_impact = match apply_factors::<DECIMALS>(next, negative_factor, exponent_factor) {
            None => return None,
            Some(v) => v,
        };
        let has_positive_impact = positive_impact > negative_impact;
        signed_diff(has_positive_impact, positive_impact, negative_impact)
    }
}

/// The price impact in terms of the factored imbalances `A(x, f) = f * x ^ E`, with `i` the
/// imbalance before and `n` after, and `(pf, nf)` the adjusted positive and negative factors:
/// - a same-side rebalance that shrinks the imbalance has impact `A(i, pf) - A(n, pf) >= 0`;
/// - a same-side rebalance that does not has impact `A(i, nf) - A(n, nf) <= 0`;
/// - a rebalance that crosses over has impact `A(i, pf) - A(n, nf)`, positive exactly when the
///   first term is larger.
pub proof fn lemma_swap_impact_value(d: PoolDelta, params: PriceImpactParams, u: int)
    requires
        1 <= u <= u128::MAX,
        swap_impact_spec(d, params, u) is Some,
    ensures
        ({
            let i = abs_diff_spec(d.current.long_token_usd_value as int, d.current.short_token_usd_value as int);
            let n = abs_diff_spec(d.next.long_token_usd_value as int, d.next.short_token_usd_value as int);
            let pf = adjusted_factors_spec(params).0 as int;
            let nf = adjusted_factors_spec(params).1 as int;
            let e = params.exponent as int;
            let impact = swap_impact_spec(d, params, u).unwrap() as int;
            &&& is_same_side_rebalance_spec(d) && n < i ==> impact == apply_factors_spec(i, pf, e, u).unwrap()
                - apply_factors_spec(n, pf, e, u).unwrap() && impact >= 0
            &&& is_same_side_rebalance_spec(d) && n >= i ==> impact == apply_factors_spec(i, nf, e, u).unwrap()
                - apply_factors_spec(n, nf, e, u).unwrap() && impact <= 0
            &&& !is_same_side_rebalance_spec(d) ==> impact == apply_factors_spec(i, pf, e, u).unwrap()
                - apply_factors_spec(n, nf, e, u).unwrap()
            &&& !is_same_side_rebalance_spec(d) ==> (impact > 0 <==> apply_factors_spec(i, pf, e, u).unwrap()
                > apply_factors_spec(n, nf, e, u).unwrap())
        }),
{
    let i = abs_diff_spec(d.current.long_token_usd_value as int, d.current.short_token_usd_value as int);
    let n = abs_diff_spec(d.next.long_token_usd_value as int, d.next.short_token_usd_value as int);
    let pf = adjusted_factors_spec(params).0 as int;
    let nf = adjusted_factors_spec(params).1 as int;
    let e = params.exponent as int;
    if is_same_side_rebalance_spec(d) {
        if n < i {
            lemma_apply_factors_mono(n, i, pf, e, u);
        } else {
            lemma_apply_factors_mono(i, n, nf, e, u);
        }
    }
}

/// A change that keeps the same side of the pool the larger one (or keeps the sides in the same
/// order, ties counting with the short side) is a same-side rebalance, on either side of the pool:
/// its impact is never negative when the usd imbalance shrinks and never positive when it does
/// not. A change that swaps which side is larger is priced as a crossing: the positive factor on
/// the imbalance before against the negative factor on the imbalance after.
pub proof fn lemma_rebalance_impact_sign(d: PoolDelta, params: PriceImpactParams, u: int)
    requires
        1 <= u <= u128::MAX,
        swap_impact_spec(d, params, u) is Some,
    ensures
        ({
            let cl = d.current.long_token_usd_value as int;
            let cs = d.current.short_token_usd_value as int;
            let nl = d.next.long_token_usd_value as int;
            let ns = d.next.short_token_usd_value as int;
            let i = if cl >= cs {
                cl - cs
            } else {
                cs - cl
            };
            let n = if nl >= ns {
                nl - ns
            } else {
                ns - nl
            };
            let impact = swap_impact_spec(d, params, u).unwrap() as int;
            let e = params.exponent as int;
            &&& (cl <= cs) == (nl <= ns) && n < i ==> impact >= 0
            &&& (cl <= cs) == (nl <= ns) && n >= i ==> impact <= 0
            &&& (cl <= cs) != (nl <= ns) ==> impact == apply_factors_spec(
                i,
                adjusted_factors_spec(params).0 as int,
                e,
                u,
            ).unwrap() - apply_factors_spec(n, adjusted_factors_spec(params).1 as int, e, u).unwrap()
        }),
{
    lemma_swap_impact_value(d, params, u);
}

} // verus!
