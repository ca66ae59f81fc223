//! Conversions between usd values, market token amounts and factors.
use vstd::prelude::*;

use crate::fixed::{checked_pow, fixed_mul, fixed_pow_spec, pow10, pow_int_spec, unit, MAX_DECIMALS};
use crate::num::{checked_mul_div, mul_div_spec};

verus! {

/// The market token amount that a usd value is worth (see [`usd_to_market_token_amount`]).
pub open spec fn usd_to_market_token_amount_spec(
    usd_value: int,
    pool_value: int,
    supply: int,
    divisor: int,
) -> Option<u128> {
    if divisor == 0 {
        None
    } else if supply == 0 && pool_value == 0 {
        Some((usd_value / divisor) as u128)
    } else if supply == 0 {
        if pool_value + usd_value > u128::MAX {
            None
        } else {
            Some(((pool_value + usd_value) / divisor) as u128)
        }
    } else {
        mul_div_spec(supply, usd_value, pool_value)
    }
}

/// Usd value to market token amount.
///
/// - With an empty market (no supply, no value), the usd value is divided by `usd_to_amount_divisor`.
/// - With no supply but some pool value, `pool_value + usd_value` is divided by it.
/// - Otherwise the amount is `supply * usd_value / pool_value`, rounded down.
///
/// Returns `None` if the computation cannot be done.
pub fn usd_to_market_token_amount(
    usd_value: u128,
    pool_value: u128,
    supply: u128,
    usd_to_amount_divisor: u128,
) -> (r: Option<u128>)
    ensures
        r == usd_to_market_token_amount_spec(
            usd_value as int,
            pool_value as int,
            supply as int,
            usd_to_amount_divisor as int,
        ),
{
    if usd_to_amount_divisor == 0 {
        return None;
    }
    if supply == 0 && pool_value == 0 {
        Some(usd_value / usd_to_amount_divisor)
    } else if supply == 0 && pool_value != 0 {
        match pool_value.checked_add(usd_value) {
            None => None,
            Some(sum) => Some(sum / usd_to_amount_divisor),
        }
    } else {
        checked_mul_div(supply, usd_value, pool_value)
    }
}

/// `x ^ E` for a fixed-point `x` with unit `u` (see [`apply_exponent_factor`]).
pub open spec fn exponent_factor_spec(value: int, exponent: int, u: int) -> Option<u128> {
    if value == u {
        Some(u as u128)
    } else if exponent == 0 {
        Some(u as u128)
    } else if exponent == u {
        Some(value as u128)
    } else {
        fixed_pow_spec(value, exponent, u)
    }
}

fn apply_exponent_factor_wrapped(value: u128, exponent_factor: u128, u: u128) -> (r: Option<u128>)
    requires
        u >= 1,
    ensures
        r == exponent_factor_spec(value as int, exponent_factor as int, u as int),
{
    if value == u {
        Some(u)
    } else {
        if exponent_factor == 0 {
            Some(u)
        } else if exponent_factor == u {
            Some(value)
        } else {
            checked_pow(value, exponent_factor, u)
        }
    }
}

/// Apply exponent factor using this formula: `x^E`.
///
/// All values are fixed-point decimals with `DECIMALS` decimals. A value of one, or an exponent of
/// zero, gives one; an exponent of one gives the value.
pub fn apply_exponent_factor<const DECIMALS: u8>(value: u128, exponent_factor: u128) -> (r: Option<
    u128,
>)
    requires
        DECIMALS <= MAX_DECIMALS,
    ensures
        r == exponent_factor_spec(
            value as int,
            exponent_factor as int,
            pow10(DECIMALS as nat) as int,
        ),
{
    let u = unit(DECIMALS);
    apply_exponent_factor_wrapped(value, exponent_factor, u)
}

/// `A * x^E` for fixed-point decimals with unit `u`.
pub open spec fn apply_factors_spec(value: int, factor: int, exponent: int, u: int) -> Option<
    u128,
> {
    match exponent_factor_spec(value, exponent, u) {
        None => None,
        Some(x) => mul_div_spec(x as int, factor, u),
    }
}

/// Apply factors using this formula: `A * x^E`.
///
/// All values are fixed-point decimals with `DECIMALS` decimals.
pub fn apply_factors<const DECIMALS: u8>(value: u128, factor: u128, exponent_factor: u128) -> (r:
    Option<u128>)
    requires
        DECIMALS <= MAX_DECIMALS,
    ensures
        r == apply_factors_spec(
            value as int,
            factor as int,
            exponent_factor as int,
            pow10(DECIMALS as nat) as int,
        ),
{
    let u = unit(DECIMALS);
    match apply_exponent_factor_wrapped(value, exponent_factor, u) {
        None => None,
        Some(x) => fixed_mul(x, factor, u),
    }
}

/// `floor(a * b / c)` grows with `a` and `b`.
proof fn lemma_mul_div_mono(a: int, b: int, a2: int, b2: int, c: int)
    requires
        0 <= a <= a2,
        0 <= b <= b2,
        c > 0,
    ensures
        a * b / c <= a2 * b2 / c,
{
    assert(a * b <= a2 * b2) by (nonlinear_arith)
        requires
            0 <= a <= a2,
            0 <= b <= b2,
    ;
    vstd::arithmetic::div_mod::lemma_div_is_ordered(a * b, a2 * b2, c);
}

/// Raising one to a power gives one.
proof fn lemma_pow_int_unit(n: nat, u: int)
    requires
        1 <= u <= u128::MAX,
    ensures
        pow_int_spec(u, n, u) == Some(u as u128),
    decreases n,
{
    if n > 0 {
        lemma_pow_int_unit((n - 1) as nat, u);
        vstd::arithmetic::div_mod::lemma_div_multiples_vanish(u, u);
        assert(u * u / u == u) by (nonlinear_arith)
            requires
                u * u / u == u * u / u,
                u >= 1,
        {
            vstd::arithmetic::div_mod::lemma_div_by_multiple(u, u);
        }
    }
}

/// A fixed-point power grows with its base.
proof fn lemma_pow_int_mono(x: int, y: int, n: nat, u: int)
    requires
        0 <= x <= y,
        u >= 1,
        pow_int_spec(x, n, u) is Some,
        pow_int_spec(y, n, u) is Some,
    ensures
        pow_int_spec(x, n, u).unwrap() <= pow_int_spec(y, n, u).unwrap(),
    decreases n,
{
    if n > 0 {
        lemma_pow_int_mono(x, y, (n - 1) as nat, u);
        let ax = pow_int_spec(x, (n - 1) as nat, u).unwrap() as int;
        let ay = pow_int_spec(y, (n - 1) as nat, u).unwrap() as int;
        lemma_mul_div_mono(ax, x, ay, y, u);
    }
}

/// `x ^ E` grows with `x` (where both are computed).
pub proof fn lemma_exponent_factor_mono(x: int, y: int, exponent: int, u: int)
    requires
        0 <= x <= y <= u128::MAX,
        1 <= u <= u128::MAX,
        exponent >= 0,
        exponent_factor_spec(x, exponent, u) is Some,
        exponent_factor_spec(y, exponent, u) is Some,
    ensures
        exponent_factor_spec(x, exponent, u).unwrap() <= exponent_factor_spec(y, exponent, u).unwrap(),
{
    if exponent != 0 && exponent != u && exponent % u == 0 {
        let n = (exponent / u) as nat;
        lemma_pow_int_unit(n, u);
        assert(fixed_pow_spec(u, exponent, u) == pow_int_spec(u, n, u));
        if x != u {
            assert(exponent_factor_spec(x, exponent, u) == pow_int_spec(x, n, u));
        }
        if y != u {
            assert(exponent_factor_spec(y, exponent, u) == pow_int_spec(y, n, u));
        }
        if x == u {
            if y != u {
                lemma_pow_int_mono(u, y, n, u);
            }
        } else if y == u {
            lemma_pow_int_mono(x, u, n, u);
        } else {
            lemma_pow_int_mono(x, y, n, u);
        }
    } else if exponent == 0 {
        assert(exponent_factor_spec(x, exponent, u) == Some(u as u128));
        assert(exponent_factor_spec(y, exponent, u) == Some(u as u128));
    } else if exponent == u {
        assert(exponent_factor_spec(x, exponent, u) == Some(x as u128));
        assert(exponent_factor_spec(y, exponent, u) == Some(y as u128));
    } else {
        assert(x == u);
        assert(y == u);
    }
}

/// `A * x ^ E` grows with `x` (where both are computed).
pub proof fn lemma_apply_factors_mono(x: int, y: int, factor: int, exponent: int, u: int)
    requires
        0 <= x <= y <= u128::MAX,
        1 <= u <= u128::MAX,
        factor >= 0,
        exponent >= 0,
        apply_factors_spec(x, factor, exponent, u) is Some,
        apply_factors_spec(y, factor, exponent, u) is Some,
    ensures
        apply_factors_spec(x, factor, exponent, u).unwrap() <= apply_factors_spec(y, factor, exponent, u).unwrap(),
{
    lemma_exponent_factor_mono(x, y, exponent, u);
    let ex = exponent_factor_spec(x, exponent, u).unwrap() as int;
    let ey = exponent_factor_spec(y, exponent, u).unwrap() as int;
    lemma_mul_div_mono(ex, factor, ey, factor, u);
}

/// Apply factor using this formula: `A * x`, that is `value * factor / 10^DECIMALS` rounded down.
///
/// `DECIMALS` is the number of decimals of `factor`; `value` may have any.
pub fn apply_factor<const DECIMALS: u8>(value: &u128, factor: &u128) -> (r: Option<u128>)
    requires
        DECIMALS <= MAX_DECIMALS,
    ensures
        r == mul_div_spec(*value as int, *factor as int, pow10(DECIMALS as nat) as int),
{
    let u = unit(DECIMALS);
    checked_mul_div(*value, *factor, u)
}

} // verus!
