//! Fixed-point arithmetic for money, prices and percentages.
//!
//! One currency unit is `MONEY_SCALE` ticks, one purchased asset unit is
//! `AMOUNT_SCALE` lots (the exchange's four-decimal lot granularity), one
//! percent is `PCT_SCALE` ticks, and a probability or fee fraction of 1.0
//! is `FRAC_SCALE` ticks.
//!
//! Every derived quantity is the mathematically exact value, rounded
//! half-away-from-zero where a division is involved, then clamped into
//! the `i64` range.  Within the documented operating range the clamp is
//! the identity, so the contracts below pin results down exactly.

use vstd::prelude::*;

verus! {

/// Ticks per currency unit: prices and cash are counted in millionths.
pub const MONEY_SCALE: i64 = 1_000_000;

/// Lots per asset unit: purchase amounts are counted in ten-thousandths.
pub const AMOUNT_SCALE: i64 = 10_000;

/// Ticks per percent: percentages are counted in millionths of a percent.
pub const PCT_SCALE: i64 = 1_000_000;

/// Ticks per whole: fractions (fees, probabilities) in millionths.
pub const FRAC_SCALE: i64 = 1_000_000;

/// `PCT_SCALE` ticks times the 100 of a percentage formula.
pub const HUNDRED_PCT: i64 = 100_000_000;

/// Clamp an unbounded integer into the `i64` range.
pub open spec fn sat64(x: int) -> int {
    if x > i64::MAX {
        i64::MAX as int
    } else if x < i64::MIN {
        i64::MIN as int
    } else {
        x
    }
}

/// Quotient `n / d` for `d > 0`, rounded half away from zero.
pub open spec fn rha(n: int, d: int) -> int
    recommends
        d > 0,
{
    if n >= 0 {
        (2 * n + d) / (2 * d)
    } else {
        -((2 * (-n) + d) / (2 * d))
    }
}

/// Division, rounding and clamping composed: the shape of every derived
/// quantity in the trading engine.
pub open spec fn rha64(n: int, d: int) -> int
    recommends
        d > 0,
{
    sat64(rha(n, d))
}

/// Largest numerator and denominator magnitude `rha_div` accepts; the
/// product of two `i64` values always stays within it.
pub const RHA_BOUND: i128 = 0x4000_0000_0000_0000_0000_0000_0000_0000;

/// Magnitude bound on a product, from magnitude bounds on its factors.
pub proof fn lemma_mul_bound(a: int, b: int, ma: int, mb: int)
    requires
        -ma <= a <= ma,
        -mb <= b <= mb,
        0 <= ma,
        0 <= mb,
    ensures
        -(ma * mb) <= a * b <= ma * mb,
{
    assert(-(ma * mb) <= a * b <= ma * mb) by (nonlinear_arith)
        requires
            -ma <= a <= ma,
            -mb <= b <= mb,
            0 <= ma,
            0 <= mb,
    ;
}

/// Product of two `i64` values, widened so it cannot overflow; the
/// result always lies within `RHA_BOUND`.
pub fn mul_i64(a: i64, b: i64) -> (r: i128)
    ensures
        r as int == a as int * b as int,
        -RHA_BOUND <= r <= RHA_BOUND,
{
    proof {
        lemma_mul_bound(a as int, b as int, 0x8000_0000_0000_0000, 0x8000_0000_0000_0000);
    }
    (a as i128) * (b as i128)
}

/// Clamp a 128-bit value into the `i64` range.
pub fn sat_to_i64(x: i128) -> (r: i64)
    ensures
        r as int == sat64(x as int),
{
    if x > i64::MAX as i128 {
        i64::MAX
    } else if x < i64::MIN as i128 {
        i64::MIN
    } else {
        x as i64
    }
}

/// Saturating sum of two `i64` values.
pub fn sat_add(a: i64, b: i64) -> (r: i64)
    ensures
        r as int == sat64(a + b),
{
    sat_to_i64(a as i128 + b as i128)
}

/// Saturating difference of two `i64` values.
pub fn sat_sub(a: i64, b: i64) -> (r: i64)
    ensures
        r as int == sat64(a - b),
{
    sat_to_i64(a as i128 - b as i128)
}

/// `n / d` rounded half away from zero, on 128-bit operands.
pub fn rha_div(n: i128, d: i128) -> (r: i128)
    requires
        0 < d <= RHA_BOUND,
        -RHA_BOUND <= n <= RHA_BOUND,
    ensures
        r as int == rha(n as int, d as int),
        -RHA_BOUND <= r <= RHA_BOUND,
        n >= 0 ==> 0 <= r <= n,
        n < 0 ==> n <= r <= 0,
{
    let du: u128 = d as u128;
    let m: u128 = if n >= 0 {
        n as u128
    } else {
        (-n) as u128
    };
    let q: u128 = (2 * m + du) / (2 * du);
    assert(q <= m) by {
        assert(2 * m + du < (2 * du) * (m + 1)) by (nonlinear_arith)
            requires
                du >= 1,
                m >= 0,
        ;
        assert((2 * m + du) / (2 * du) < m + 1) by (nonlinear_arith)
            requires
                2 * m + du < (2 * du) * (m + 1),
                du >= 1,
        ;
    };
    if n >= 0 {
        q as i128
    } else {
        -(q as i128)
    }
}

/// `rha_div` followed by the clamp into `i64`: `rha64` in executable form.
pub fn rha_div64(n: i128, d: i128) -> (r: i64)
    requires
        0 < d <= RHA_BOUND,
        -RHA_BOUND <= n <= RHA_BOUND,
    ensures
        r as int == rha64(n as int, d as int),
{
    sat_to_i64(rha_div(n, d))
}

/// For a nonnegative numerator the rounded quotient lies between zero
/// and the numerator.
pub proof fn lemma_rha_nonneg_le(n: int, d: int)
    requires
        n >= 0,
        d >= 1,
    ensures
        0 <= rha(n, d) <= n,
{
    assert(2 * n + d < (2 * d) * (n + 1)) by (nonlinear_arith)
        requires
            n >= 0,
            d >= 1,
    ;
    assert((2 * n + d) / (2 * d) < n + 1) by (nonlinear_arith)
        requires
            2 * n + d < (2 * d) * (n + 1),
            d >= 1,
    ;
    assert((2 * n + d) / (2 * d) >= 0) by (nonlinear_arith)
        requires
            n >= 0,
            d >= 1,
    ;
}

/// The rounded quotient grows with the numerator.
pub proof fn lemma_rha_monotone(n1: int, n2: int, d: int)
    requires
        0 <= n1 <= n2,
        d >= 1,
    ensures
        rha(n1, d) <= rha(n2, d),
{
    vstd::arithmetic::div_mod::lemma_div_is_ordered(2 * n1 + d, 2 * n2 + d, 2 * d);
}

/// Scaling the rounded quotient back up overshoots by at most `d`.
pub proof fn lemma_rha_times_d(n: int, d: int)
    requires
        n >= 0,
        d >= 1,
    ensures
        rha(n, d) * d <= n + d,
{
    let q = (2 * n + d) / (2 * d);
    vstd::arithmetic::div_mod::lemma_fundamental_div_mod(2 * n + d, 2 * d);
    vstd::arithmetic::div_mod::lemma_mod_bound(2 * n + d, 2 * d);
    assert(q * (2 * d) <= 2 * n + d) by (nonlinear_arith)
        requires
            (2 * n + d) == (2 * d) * q + (2 * n + d) % (2 * d),
            (2 * n + d) % (2 * d) >= 0,
    ;
    assert(2 * (q * d) == q * (2 * d)) by (nonlinear_arith);
}

/// Exact division needs no rounding: `rha(k * d, d) == k`.
pub proof fn lemma_rha_exact(k: int, d: int)
    requires
        d > 0,
    ensures
        rha(k * d, d) == k,
{
    if k >= 0 {
        assert(2 * (k * d) + d == (2 * d) * k + d) by (nonlinear_arith);
        assert(((2 * d) * k + d) / (2 * d) == k) by {
            vstd::arithmetic::div_mod::lemma_div_multiples_vanish_fancy(k, d, 2 * d);
        }
        assert(k * d >= 0) by (nonlinear_arith)
            requires
                k >= 0,
                d > 0,
        ;
    } else {
        assert(k * d < 0) by (nonlinear_arith)
            requires
                k < 0,
                d > 0,
        ;
        assert(2 * (-(k * d)) + d == (2 * d) * (-k) + d) by (nonlinear_arith);
        assert(((2 * d) * (-k) + d) / (2 * d) == -k) by {
            vstd::arithmetic::div_mod::lemma_div_multiples_vanish_fancy(-k, d, 2 * d);
        }
    }
}

} // verus!
