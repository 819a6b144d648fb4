//! Integer helpers for fixed-point arithmetic: division that rounds toward
//! zero, clamping, and the integer square root.
use vstd::prelude::*;
use crate::constants::{MICROS_PER_SECOND, SCALE};

verus! {

/// The magnitude of `a`.
pub open spec fn abs(a: int) -> int {
    if a >= 0 {
        a
    } else {
        -a
    }
}

/// The quotient of `a` by a positive `b`, rounded toward zero.
pub open spec fn div_trunc(a: int, b: int) -> int
    recommends
        b > 0,
{
    if a >= 0 {
        a / b
    } else {
        -((-a) / b)
    }
}

/// `value` moved into the interval from `lo` to `hi`.
pub open spec fn clamp_int(value: int, lo: int, hi: int) -> int {
    if value < lo {
        lo
    } else if value > hi {
        hi
    } else {
        value
    }
}

/// What a quantity that changes at `rate` per second gains in `delta`
/// microseconds, rounded toward zero.
pub open spec fn over_time(rate: int, delta: int) -> int {
    div_trunc(rate * delta, MICROS_PER_SECOND as int)
}

/// `value` times `ratio`, a factor in thousandths, rounded toward zero.
pub open spec fn scaled(value: int, ratio: int) -> int {
    div_trunc(value * ratio, SCALE as int)
}

/// Largest magnitude of a rate handed to `integrate`.
pub const RATE_LIMIT: i64 = 100_000_000_000_000;

/// `r` is the integer square root of `n`: the largest integer whose square
/// does not exceed `n`.
pub open spec fn is_sqrt_floor(n: int, r: int) -> bool {
    r >= 0 && r * r <= n < (r + 1) * (r + 1)
}

/// The product of two bounded factors is bounded by the product of the bounds.
pub proof fn lemma_mul_bound(a: int, b: int, a_max: int, b_max: int)
    by (nonlinear_arith)
    requires
        abs(a) <= a_max,
        abs(b) <= b_max,
    ensures
        abs(a * b) <= a_max * b_max,
        -(a_max * b_max) <= a * b <= a_max * b_max,
{
}

/// In one tick a quantity gains less than a fifteenth of its rate per second,
/// in the direction of the rate.
pub proof fn lemma_over_time_bound(rate: int, delta: int)
    requires
        0 <= delta <= u16::MAX,
    ensures
        15 * abs(over_time(rate, delta)) <= abs(rate),
        rate >= 0 ==> over_time(rate, delta) >= 0,
        rate <= 0 ==> over_time(rate, delta) <= 0,
        over_time(-rate, delta) == -over_time(rate, delta),
{
    assert(abs(rate * delta) <= abs(rate) * 65_535 && (rate >= 0 ==> rate * delta >= 0) && (rate
        <= 0 ==> rate * delta <= 0) && (-rate) * delta == -(rate * delta)) by (nonlinear_arith)
        requires
            0 <= delta <= 65_535,
    ;
}

/// The integer square root of a number is unique.
pub proof fn lemma_sqrt_floor_unique(n: int, r: int, s: int)
    by (nonlinear_arith)
    requires
        is_sqrt_floor(n, r),
        is_sqrt_floor(n, s),
    ensures
        r == s,
{
}

/// `value` moved into the interval from `lo` to `hi`.
pub fn clamp(value: i64, lo: i64, hi: i64) -> (r: i64)
    ensures
        r == clamp_int(value as int, lo as int, hi as int),
{
    if value < lo {
        lo
    } else if value > hi {
        hi
    } else {
        value
    }
}

/// What a quantity that changes at `rate` per second gains in `delta`
/// microseconds.
pub fn integrate(rate: i64, delta: u16) -> (r: i64)
    requires
        abs(rate as int) <= RATE_LIMIT,
    ensures
        r == over_time(rate as int, delta as int),
        15 * abs(r as int) <= abs(rate as int),
{
    proof {
        lemma_over_time_bound(rate as int, delta as int);
    }
    rate * (delta as i64) / MICROS_PER_SECOND
}

/// `value` times `ratio`, a factor in thousandths.
pub fn scale(value: i64, ratio: i64) -> (r: i64)
    requires
        i64::MIN <= value * ratio <= i64::MAX,
    ensures
        r == scaled(value as int, ratio as int),
{
    value * ratio / SCALE
}

/// The integer square root of `n`.
pub fn isqrt(n: u64) -> (r: u64)
    ensures
        is_sqrt_floor(n as int, r as int),
        r < 0x1_0000_0000,
{
    let mut lo: u64 = 0;
    let mut hi: u64 = 0x1_0000_0000;
    while hi - lo > 1
        invariant
            lo < hi <= 0x1_0000_0000,
            lo * lo <= n,
            n < hi * hi,
        decreases hi - lo,
    {
        let mid: u64 = lo + (hi - lo) / 2;
        assert(mid * mid <= 0xffff_ffffint * 0xffff_ffffint) by (nonlinear_arith)
            requires
                mid <= 0xffff_ffff,
        ;
        if mid * mid <= n {
            lo = mid;
        } else {
            hi = mid;
        }
    }
    lo
}

} // verus!
