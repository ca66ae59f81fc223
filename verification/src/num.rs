//! Exact unsigned and signed arithmetic on `u128` / `i128`, including a
//! 256-bit intermediate `mul_div`.
use vstd::prelude::*;

verus! {

/// `2^n`.
pub open spec fn p2(n: nat) -> nat
    decreases n,
{
    if n == 0 {
        1
    } else {
        2 * p2((n - 1) as nat)
    }
}

/// `2^128`, the number of values of a `u128`.
pub open spec fn word() -> int {
    0x1_0000_0000_0000_0000_0000_0000_0000_0000int
}

/// `2^64`.
pub open spec fn half_word() -> int {
    0x1_0000_0000_0000_0000int
}

/// The absolute difference of two integers.
pub open spec fn abs_diff_spec(a: int, b: int) -> int {
    if a >= b {
        a - b
    } else {
        b - a
    }
}

/// `floor(a * b / c)` if it fits in a `u128`, `None` when `c` is zero or the quotient overflows.
pub open spec fn mul_div_spec(a: int, b: int, c: int) -> Option<u128> {
    if c == 0 {
        None
    } else if a * b / c > u128::MAX {
        None
    } else {
        Some((a * b / c) as u128)
    }
}

proof fn lemma_p2_adds(a: nat, b: nat)
    ensures
        p2(a + b) == p2(a) * p2(b),
    decreases a,
{
    if a > 0 {
        lemma_p2_adds((a - 1) as nat, b);
        let x = p2((a - 1) as nat);
        let y = p2(b);
        assert(((a + b) - 1) as nat == ((a - 1) as nat + b) as nat);
        assert(p2(a + b) == 2 * p2(((a - 1) as nat + b) as nat));
        assert(p2(((a - 1) as nat + b) as nat) == x * y);
        assert(2 * (x * y) == (2 * x) * y) by (nonlinear_arith);
        assert(p2(a) == 2 * x);
    } else {
        assert(a + b == b);
        assert(p2(a) == 1);
    }
}

proof fn lemma_p2_pos(a: nat)
    ensures
        p2(a) >= 1,
    decreases a,
{
    if a > 0 {
        lemma_p2_pos((a - 1) as nat);
    }
}

proof fn lemma_p2_128()
    ensures
        p2(128) == word(),
        p2(64) == half_word(),
{
    assert(p2(1) == 2) by {
        reveal_with_fuel(p2, 2);
    }
    lemma_p2_adds(1, 1);
    assert(p2(2) == 4);
    lemma_p2_adds(2, 2);
    assert(p2(4) == 16);
    lemma_p2_adds(4, 4);
    assert(p2(8) == 256);
    lemma_p2_adds(8, 8);
    assert(p2(16) == 65536);
    lemma_p2_adds(16, 16);
    assert(p2(32) == 0x1_0000_0000);
    lemma_p2_adds(32, 32);
    assert(p2(64) == 0x1_0000_0000_0000_0000);
    lemma_p2_adds(64, 64);
    assert(p2(128) == 0x1_0000_0000_0000_0000int * 0x1_0000_0000_0000_0000int);
}

/// The product of two 128-bit numbers, split in a high and a low word.
proof fn lemma_full_mul(a: int, b: int, a0: int, a1: int, b0: int, b1: int, bw: int)
    requires
        bw > 0,
        a == a1 * bw + a0,
        b == b1 * bw + b0,
    ensures
        a * b == (a1 * b1) * (bw * bw) + (a0 * b1 + a1 * b0) * bw + a0 * b0,
{
    let x = a1 * bw;
    let y = b1 * bw;
    vstd::arithmetic::mul::lemma_mul_is_distributive_add(a, y, b0);
    vstd::arithmetic::mul::lemma_mul_is_distributive_add_other_way(y, x, a0);
    vstd::arithmetic::mul::lemma_mul_is_distributive_add_other_way(b0, x, a0);
    assert(x * y == (a1 * b1) * (bw * bw)) by (nonlinear_arith)
        requires
            x == a1 * bw,
            y == b1 * bw,
    ;
    assert(a0 * y == (a0 * b1) * bw) by (nonlinear_arith)
        requires
            y == b1 * bw,
    ;
    assert(x * b0 == (a1 * b0) * bw) by (nonlinear_arith)
        requires
            x == a1 * bw,
    ;
    assert((a0 * b1 + a1 * b0) * bw == (a0 * b1) * bw + (a1 * b0) * bw) by (nonlinear_arith);
}

proof fn lemma_small_mul(x: int, y: int, bw: int)
    requires
        0 <= x < bw,
        0 <= y < bw,
    ensures
        0 <= x * y < bw * bw,
        x * y <= (bw - 1) * (bw - 1),
{
    assert(0 <= x * y <= (bw - 1) * (bw - 1)) by (nonlinear_arith)
        requires
            0 <= x < bw,
            0 <= y < bw,
    ;
    assert((bw - 1) * (bw - 1) < bw * bw) by (nonlinear_arith)
        requires
            bw > 0,
    ;
}

/// The full 256-bit product of two `u128`, as `(high, low)`.
fn full_mul(a: u128, b: u128) -> (r: (u128, u128))
    ensures
        r.0 * word() + r.1 == a * b,
{
    let bw: u128 = 0x1_0000_0000_0000_0000;
    let a1 = a / bw;
    let a0 = a % bw;
    let b1 = b / bw;
    let b0 = b % bw;
    proof {
        assert(bw * bw == word());
        assert(a1 < bw) by (nonlinear_arith)
            requires
                a1 == a / bw,
                a < bw * bw,
                bw > 0,
        ;
        assert(b1 < bw) by (nonlinear_arith)
            requires
                b1 == b / bw,
                b < bw * bw,
                bw > 0,
        ;
        lemma_small_mul(a0 as int, b0 as int, bw as int);
        lemma_small_mul(a0 as int, b1 as int, bw as int);
        lemma_small_mul(a1 as int, b0 as int, bw as int);
        lemma_small_mul(a1 as int, b1 as int, bw as int);
    }
    let p00 = a0 * b0;
    let p01 = a0 * b1;
    let p10 = a1 * b0;
    let p11 = a1 * b1;
    let m = p01 % bw + p10 % bw + p00 / bw;
    let lo = (m % bw) * bw + p00 % bw;
    proof {
        let ghost bwi = bw as int;
        lemma_full_mul(a as int, b as int, a0 as int, a1 as int, b0 as int, b1 as int, bwi);
        let ghost q1 = p01 / bw;
        let ghost r1 = p01 % bw;
        let ghost q2 = p10 / bw;
        let ghost r2 = p10 % bw;
        let ghost q0 = p00 / bw;
        let ghost r0 = p00 % bw;
        let ghost qm = m / bw;
        let ghost rm = m % bw;
        assert(a * b == (p11 + q1 + q2 + qm) * (bwi * bwi) + rm * bwi + r0) by (nonlinear_arith)
            requires
                a * b == p11 * (bwi * bwi) + (p01 + p10) * bwi + p00,
                p01 == q1 * bwi + r1,
                p10 == q2 * bwi + r2,
                p00 == q0 * bwi + r0,
                m == r1 + r2 + q0,
                m == qm * bwi + rm,
        ;
        assert(0 <= rm * bwi + r0 < bwi * bwi) by (nonlinear_arith)
            requires
                0 <= rm < bwi,
                0 <= r0 < bwi,
        ;
        assert(a * b <= (bwi * bwi - 1) * (bwi * bwi - 1)) by (nonlinear_arith)
            requires
                0 <= a < bwi * bwi,
                0 <= b < bwi * bwi,
        ;
        assert(p11 + q1 + q2 + qm < bwi * bwi) by (nonlinear_arith)
            requires
                a * b == (p11 + q1 + q2 + qm) * (bwi * bwi) + (rm * bwi + r0),
                0 <= rm * bwi + r0,
                a * b <= (bwi * bwi - 1) * (bwi * bwi - 1),
                bwi > 0,
        ;
    }
    let hi = p11 + p01 / bw + p10 / bw + m / bw;
    (hi, lo)
}

proof fn lemma_div_step(n: int, hi: int, lo: int, i: nat)
    requires
        i < 128,
        0 <= lo < word(),
        0 <= hi,
        n == hi * word() + lo,
    ensures
        n / (p2((127 - i) as nat) as int) == 2 * (n / (p2((128 - i) as nat) as int)) + (lo / (p2(
            (127 - i) as nat,
        ) as int)) % 2,
{
    let d = p2((127 - i) as nat) as int;
    let pw = p2((128 - i) as nat) as int;
    let k = p2((i + 1) as nat) as int;
    lemma_p2_pos((127 - i) as nat);
    lemma_p2_pos(i as nat);
    lemma_p2_128();
    assert(pw == 2 * d);
    lemma_p2_adds((127 - i) as nat, (i + 1) as nat);
    assert(((127 - i) as nat + (i + 1) as nat) == 128nat);
    assert(d * k == word());
    assert(k == 2 * p2(i as nat));
    // n / pw == (n / d) / 2
    vstd::arithmetic::div_mod::lemma_div_denominator(n, d, 2);
    assert(d * 2 == pw);
    let nd = n / d;
    vstd::arithmetic::div_mod::lemma_fundamental_div_mod(nd, 2);
    // n / d == hi * k + lo / d
    vstd::arithmetic::div_mod::lemma_fundamental_div_mod(lo, d);
    let ld = lo / d;
    let lr = lo % d;
    assert(0 <= lr < d) by {
        vstd::arithmetic::div_mod::lemma_mod_pos_bound(lo, d);
    }
    assert(n == (hi * k + ld) * d + lr) by (nonlinear_arith)
        requires
            n == hi * word() + lo,
            d * k == word(),
            lo == d * ld + lr,
    ;
    vstd::arithmetic::div_mod::lemma_fundamental_div_mod_converse_div(n, d, hi * k + ld, lr);
    assert(nd == hi * k + ld);
    // (hi * k + ld) % 2 == ld % 2
    let m = hi * p2(i as nat);
    assert(hi * k == 2 * m) by (nonlinear_arith)
        requires
            k == 2 * p2(i as nat),
            m == hi * p2(i as nat),
    ;
    vstd::arithmetic::div_mod::lemma_fundamental_div_mod(ld, 2);
    let lq = ld / 2;
    let lb = ld % 2;
    assert(0 <= lb < 2) by {
        vstd::arithmetic::div_mod::lemma_mod_pos_bound(ld, 2);
    }
    vstd::arithmetic::div_mod::lemma_fundamental_div_mod_converse(nd, 2, m + lq, lb);
}

/// Exact `floor(a * b / c)` computed with a 256-bit intermediate product.
///
/// Returns `None` if `c` is zero or the quotient does not fit in a `u128`.
pub fn checked_mul_div(a: u128, b: u128, c: u128) -> (r: Option<u128>)
    ensures
        r == mul_div_spec(a as int, b as int, c as int),
{
    if c == 0 {
        return None;
    }
    let (hi, lo) = full_mul(a, b);
    let ghost n: int = a * b;
    proof {
        lemma_p2_128();
    }
    if hi >= c {
        proof {
            assert(n >= c * word()) by (nonlinear_arith)
                requires
                    n == hi * word() + lo,
                    hi >= c,
                    lo >= 0,
            ;
            vstd::arithmetic::div_mod::lemma_div_is_ordered(c * word(), n, c as int);
            vstd::arithmetic::div_mod::lemma_div_multiples_vanish(word(), c as int);
        }
        return None;
    }
    let mut r: u128 = hi;
    let mut q: u128 = 0;
    let mut d: u128 = 0x8000_0000_0000_0000_0000_0000_0000_0000;
    let mut i: u32 = 0;
    proof {
        vstd::arithmetic::div_mod::lemma_fundamental_div_mod_converse_div(n, word(), hi as int, lo as int);
        assert(p2(128) == 2 * p2(127));
        assert(p2(0) == 1);
    }
    while i < 128
        invariant
            i <= 128,
            c > 0,
            n == hi * word() + lo,
            0 <= lo < word(),
            r < c,
            i < 128 ==> d == p2((127 - i) as nat),
            q < p2(i as nat),
            q * c + r == n / (p2((128 - i) as nat) as int),
            p2(128) == word(),
        decreases 128 - i,
    {
        proof {
            lemma_p2_pos((127 - i) as nat);
        }
        let bit: u128 = (lo / d) % 2;
        proof {
            lemma_div_step(n, hi as int, lo as int, i as nat);
            lemma_p2_adds(i as nat, (128 - i) as nat);
            lemma_p2_pos((127 - i) as nat);
            assert(p2((128 - i) as nat) == 2 * p2((127 - i) as nat));
            assert(p2(i as nat) * 2 <= word()) by (nonlinear_arith)
                requires
                    p2(i as nat) * p2((128 - i) as nat) == word(),
                    p2((128 - i) as nat) >= 2,
            ;
            assert(p2((i + 1) as nat) == 2 * p2(i as nat));
        }
        if r + bit >= c - r {
            let nr = r + bit - (c - r);
            proof {
                assert((2 * q + 1) * c == 2 * (q * c) + c) by (nonlinear_arith);
            }
            q = 2 * q + 1;
            r = nr;
        } else {
            proof {
                assert((2 * q) * c == 2 * (q * c)) by (nonlinear_arith);
            }
            q = 2 * q;
            r = r + r + bit;
        }
        if i < 127 {
            proof {
                assert(p2((127 - i) as nat) == 2 * p2((126 - i) as nat));
            }
            d = d / 2;
        }
        i = i + 1;
    }
    proof {
        assert(p2(0) == 1);
        assert(n / 1 == n);
        vstd::arithmetic::div_mod::lemma_fundamental_div_mod_converse_div(n, c as int, q as int, r as int);
    }
    Some(q)
}

/// The absolute difference of two `u128`.
pub fn diff(a: u128, b: u128) -> (r: u128)
    ensures
        r == abs_diff_spec(a as int, b as int),
{
    if a >= b {
        a - b
    } else {
        b - a
    }
}

/// Converts an unsigned number to a signed one, failing when it is above `i128::MAX`.
pub fn to_signed(a: u128) -> (r: Option<i128>)
    ensures
        r is Some <==> a <= i128::MAX,
        r matches Some(v) ==> v == a,
{
    if a <= 0x7fff_ffff_ffff_ffff_ffff_ffff_ffff_ffff {
        Some(a as i128)
    } else {
        None
    }
}

/// Converts an unsigned number to the signed number of the opposite sign, failing when
/// its magnitude is above `i128::MAX`.
pub fn to_opposite_signed(a: u128) -> (r: Option<i128>)
    ensures
        r is Some <==> a <= i128::MAX,
        r matches Some(v) ==> v == -a,
{
    if a <= 0x7fff_ffff_ffff_ffff_ffff_ffff_ffff_ffff {
        Some(-(a as i128))
    } else {
        None
    }
}

/// The magnitude of a signed number.
pub fn unsigned_abs(a: i128) -> (r: u128)
    ensures
        r == if a >= 0 { a as int } else { -a },
{
    if a >= 0 {
        a as u128
    } else if a == i128::MIN {
        0x8000_0000_0000_0000_0000_0000_0000_0000
    } else {
        (-a) as u128
    }
}

/// `a + b` for an unsigned `a` and a signed `b`, `None` when the sum is negative or
/// does not fit in a `u128`.
pub fn checked_add_with_signed(a: u128, b: i128) -> (r: Option<u128>)
    ensures
        r is Some <==> 0 <= a + b <= u128::MAX,
        r matches Some(v) ==> v == a + b,
{
    a.checked_add_signed(b)
}

/// `a * b` for an unsigned `a` and a signed `b`, `None` when the product does not fit in an `i128`.
pub fn checked_mul_with_signed(a: u128, b: i128) -> (r: Option<i128>)
    ensures
        r is Some <==> i128::MIN <= a * b <= i128::MAX,
        r matches Some(v) ==> v == a * b,
{
    let m = unsigned_abs(b);
    match a.checked_mul(m) {
        None => {
            proof {
                if b >= 0 {
                    assert(a * b == a * m);
                } else {
                    assert(a * b == -(a * m)) by (nonlinear_arith)
                        requires
                            m == -b,
                    ;
                }
            }
            None
        },
        Some(p) => {
            if b >= 0 {
                assert(a * b == a * m);
                to_signed(p)
            } else {
                proof {
                    assert(a * b == -(a * m)) by (nonlinear_arith)
                        requires
                            m == -b,
                    ;
                }
                if p <= 0x8000_0000_0000_0000_0000_0000_0000_0000 {
                    if p == 0x8000_0000_0000_0000_0000_0000_0000_0000 {
                        Some(i128::MIN)
                    } else {
                        Some(-(p as i128))
                    }
                } else {
                    None
                }
            }
        },
    }
}

} // verus!
