//! Unsigned fixed-point decimals stored in a `u128`: a value `x` with `DECIMALS`
//! decimals stands for `x / 10^DECIMALS`.
use vstd::prelude::*;

use crate::num::{checked_mul_div, mul_div_spec};

verus! {

/// The largest number of decimals whose unit fits in a `u128`.
pub const MAX_DECIMALS: u8 = 38;

/// `10^n`.
pub open spec fn pow10(n: nat) -> nat
    decreases n,
{
    if n == 0 {
        1
    } else {
        10 * pow10((n - 1) as nat)
    }
}

proof fn lemma_pow10_mono(a: nat, b: nat)
    requires
        a <= b,
    ensures
        1 <= pow10(a) <= pow10(b),
    decreases b,
{
    if a < b {
        lemma_pow10_mono(a, (b - 1) as nat);
    } else if a > 0 {
        lemma_pow10_mono((a - 1) as nat, (a - 1) as nat);
    }
}

proof fn lemma_pow10_38()
    ensures
        pow10(38) == 100_000_000_000_000_000_000_000_000_000_000_000_000,
{
    reveal_with_fuel(pow10, 39);
}

/// The unit (the fixed-point `1`) of a fixed-point decimal with `decimals` decimals.
pub fn unit(decimals: u8) -> (u: u128)
    requires
        decimals <= MAX_DECIMALS,
    ensures
        u == pow10(decimals as nat),
        u >= 1,
{
    let mut u: u128 = 1;
    let mut i: u8 = 0;
    while i < decimals
        invariant
            i <= decimals <= MAX_DECIMALS,
            u == pow10(i as nat),
        decreases decimals - i,
    {
        proof {
            lemma_pow10_mono((i + 1) as nat, 38);
            lemma_pow10_38();
        }
        u = u * 10;
        i = i + 1;
    }
    proof {
        lemma_pow10_mono(0, decimals as nat);
    }
    u
}

/// `value ^ n` in fixed-point arithmetic with unit `u`: the product is rounded down
/// after each multiplication and fails as soon as a partial product overflows.
pub open spec fn pow_int_spec(value: int, n: nat, u: int) -> Option<u128>
    decreases n,
{
    if n == 0 {
        if u <= u128::MAX {
            Some(u as u128)
        } else {
            None
        }
    } else {
        match pow_int_spec(value, (n - 1) as nat, u) {
            None => None,
            Some(acc) => mul_div_spec(acc as int, value, u),
        }
    }
}

/// `value ^ exponent` for fixed-point `value` and `exponent` with unit `u`.
/// Only whole exponents (multiples of the unit) are computed; others give `None`.
pub open spec fn fixed_pow_spec(value: int, exponent: int, u: int) -> Option<u128> {
    if exponent % u != 0 {
        None
    } else {
        pow_int_spec(value, (exponent / u) as nat, u)
    }
}

/// Fixed-point power `value ^ exponent` (see [`fixed_pow_spec`]).
pub fn checked_pow(value: u128, exponent: u128, u: u128) -> (r: Option<u128>)
    requires
        u >= 1,
    ensures
        r == fixed_pow_spec(value as int, exponent as int, u as int),
{
    if exponent % u != 0 {
        return None;
    }
    let n = exponent / u;
    let mut acc: u128 = u;
    let mut k: u128 = 0;
    while k < n
        invariant
            k <= n,
            u >= 1,
            n == exponent / u,
            exponent % u == 0,
            pow_int_spec(value as int, k as nat, u as int) == Some(acc),
        decreases n - k,
    {
        match checked_mul_div(acc, value, u) {
            None => {
                proof {
                    assert(((k + 1) as nat - 1) as nat == k as nat);
                    assert(pow_int_spec(value as int, (k + 1) as nat, u as int) is None);
                    lemma_pow_int_none_stays(value as int, (k + 1) as nat, n as nat, u as int);
                    assert(pow_int_spec(value as int, n as nat, u as int) is None);
                    assert((exponent as int / u as int) as nat == n as nat);
                }
                return None;
            },
            Some(next) => {
                proof {
                    assert(((k + 1) as nat - 1) as nat == k as nat);
                }
                acc = next;
            },
        }
        k = k + 1;
    }
    Some(acc)
}

proof fn lemma_pow_int_none_stays(value: int, k: nat, n: nat, u: int)
    requires
        k <= n,
        pow_int_spec(value, k, u) is None,
    ensures
        pow_int_spec(value, n, u) is None,
    decreases n - k,
{
    if k < n {
        lemma_pow_int_none_stays(value, k, (n - 1) as nat, u);
    }
}

/// Fixed-point product `a * b / u`, rounded down.
pub fn fixed_mul(a: u128, b: u128, u: u128) -> (r: Option<u128>)
    ensures
        r == mul_div_spec(a as int, b as int, u as int),
{
    checked_mul_div(a, b, u)
}

} // verus!
