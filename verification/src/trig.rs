//! Fixed-point trigonometry on milliradians.
//!
//! Sines and cosines are thousandths; they follow Bhaskara's rational
//! approximation, which is exact at the multiples of a quarter turn. Bearings
//! follow a quadratic approximation of the arc tangent on each octant.
use vstd::prelude::*;
use crate::constants::{FULL_TURN, HALF_TURN, QUARTER_TURN, SCALE};
use crate::math::modulo;

verus! {

/// The sine, in thousandths, of an angle between zero and half a turn.
pub open spec fn sine_of_half_turn(x: int) -> int
    recommends
        0 <= x <= HALF_TURN,
{
    16 * SCALE * (x * (HALF_TURN - x)) / (5 * HALF_TURN * HALF_TURN - 4 * (x * (HALF_TURN - x)))
}

/// The sine of `angle`, in thousandths.
pub open spec fn sine(angle: int) -> int {
    let a = angle % (FULL_TURN as int);
    if a <= HALF_TURN {
        sine_of_half_turn(a)
    } else {
        -sine_of_half_turn(a - HALF_TURN)
    }
}

/// The cosine of `angle`, in thousandths: the sine a quarter turn ahead.
pub open spec fn cosine(angle: int) -> int {
    sine(angle % (FULL_TURN as int) + QUARTER_TURN)
}

/// The arc tangent, in milliradians, of a ratio `z` between 0 and 1 given in
/// thousandths.
pub open spec fn arctan_of_ratio(z: int) -> int
    recommends
        0 <= z <= SCALE,
{
    (785 * z + 273 * (z * (SCALE - z)) / 1000) / 1000
}

/// The bearing of the direction `(x, y)` with `x, y >= 0`, not both zero:
/// between zero and a quarter turn.
pub open spec fn bearing_in_first_quadrant(x: int, y: int) -> int
    recommends
        x >= 0,
        y >= 0,
        x + y > 0,
{
    if y <= x {
        arctan_of_ratio(y * SCALE / x)
    } else {
        QUARTER_TURN - arctan_of_ratio(x * SCALE / y)
    }
}

/// The bearing of the direction `(x, y)`: the angle from the positive x axis,
/// more than minus half a turn and at most half a turn. The zero vector has
/// bearing zero.
pub open spec fn bearing(x: int, y: int) -> int {
    if x == 0 && y == 0 {
        0
    } else if x >= 0 && y >= 0 {
        bearing_in_first_quadrant(x, y)
    } else if x < 0 && y >= 0 {
        HALF_TURN - bearing_in_first_quadrant(-x, y)
    } else if x < 0 && y < 0 {
        bearing_in_first_quadrant(-x, -y) - HALF_TURN
    } else {
        -bearing_in_first_quadrant(x, -y)
    }
}

/// The signed turn from `source` to `target`: at least minus half a turn, less
/// than half a turn, and congruent to `target - source` modulo a full turn.
pub open spec fn turn_between(source: int, target: int) -> int {
    (target - source + HALF_TURN) % (FULL_TURN as int) - HALF_TURN
}

/// On half a turn the sine stays between zero and one.
pub proof fn lemma_sine_of_half_turn_range(x: int)
    requires
        0 <= x <= HALF_TURN,
    ensures
        0 <= sine_of_half_turn(x) <= SCALE,
{
    let p = x * (HALF_TURN - x);
    assert(0 <= p && 4 * p <= HALF_TURN * HALF_TURN) by (nonlinear_arith)
        requires
            0 <= x <= HALF_TURN,
            p == x * (HALF_TURN - x),
    ;
    let d = 49_360_820 - 4 * p;
    assert(0 <= (16_000 * p) / d <= 1000) by (nonlinear_arith)
        requires
            d > 0,
            0 <= 16_000 * p <= 1000 * d,
    ;
}

/// Sines are between minus one and one.
pub proof fn lemma_sine_range(angle: int)
    ensures
        -SCALE <= sine(angle) <= SCALE,
{
    let a = angle % (FULL_TURN as int);
    if a <= HALF_TURN {
        lemma_sine_of_half_turn_range(a);
    } else {
        lemma_sine_of_half_turn_range(a - HALF_TURN);
    }
}

/// Cosines are between minus one and one.
pub proof fn lemma_cosine_range(angle: int)
    ensures
        -SCALE <= cosine(angle) <= SCALE,
{
    lemma_sine_range(angle % (FULL_TURN as int) + QUARTER_TURN);
}

/// The arc tangent of a ratio between 0 and 1 is between zero and an eighth
/// of a turn.
pub proof fn lemma_arctan_of_ratio_range(z: int)
    requires
        0 <= z <= SCALE,
    ensures
        0 <= arctan_of_ratio(z) <= 785,
{
    let q = z * (1000 - z);
    assert(0 <= q && 273 * q <= 785_000 * (1000 - z)) by (nonlinear_arith)
        requires
            0 <= z <= 1000,
            q == z * (1000 - z),
    ;
}

/// In the first quadrant a bearing is between zero and a quarter turn.
pub proof fn lemma_bearing_in_first_quadrant_range(x: int, y: int)
    requires
        x >= 0,
        y >= 0,
        x + y > 0,
    ensures
        0 <= bearing_in_first_quadrant(x, y) <= QUARTER_TURN,
{
    if y <= x {
        let z = y * SCALE / x;
        assert(0 <= z <= SCALE) by (nonlinear_arith)
            requires
                0 <= y <= x,
                x > 0,
                z == y * SCALE / x,
                SCALE == 1000,
        ;
        lemma_arctan_of_ratio_range(z);
    } else {
        let z = x * SCALE / y;
        assert(0 <= z <= SCALE) by (nonlinear_arith)
            requires
                0 <= x <= y,
                y > 0,
                z == x * SCALE / y,
                SCALE == 1000,
        ;
        lemma_arctan_of_ratio_range(z);
    }
}

/// A bearing is within half a turn of zero.
pub proof fn lemma_bearing_range(x: int, y: int)
    ensures
        -HALF_TURN <= bearing(x, y) <= HALF_TURN,
{
    if x == 0 && y == 0 {
    } else if x >= 0 && y >= 0 {
        lemma_bearing_in_first_quadrant_range(x, y);
    } else if x < 0 && y >= 0 {
        lemma_bearing_in_first_quadrant_range(-x, y);
    } else if x < 0 && y < 0 {
        lemma_bearing_in_first_quadrant_range(-x, -y);
    } else {
        lemma_bearing_in_first_quadrant_range(x, -y);
    }
}

/// A turn between two angles is at least minus half a turn and less than half
/// a turn, and leads from the source to the target up to full turns.
pub proof fn lemma_turn_between(source: int, target: int)
    ensures
        -HALF_TURN <= turn_between(source, target) < HALF_TURN,
        (source + turn_between(source, target)) % (FULL_TURN as int) == target % (FULL_TURN as int),
{
}

fn sin_of_half_turn(x: i64) -> (r: i64)
    requires
        0 <= x <= HALF_TURN,
    ensures
        r == sine_of_half_turn(x as int),
        0 <= r <= SCALE,
{
    proof {
        lemma_sine_of_half_turn_range(x as int);
        assert(0 <= x * (HALF_TURN - x) <= HALF_TURN * HALF_TURN) by (nonlinear_arith)
            requires
                0 <= x <= HALF_TURN,
        ;
    }
    let p: i64 = x * (HALF_TURN - x);
    16 * SCALE * p / (5 * HALF_TURN * HALF_TURN - 4 * p)
}

/// The sine of `angle`, in thousandths.
pub fn sin(angle: i64) -> (r: i64)
    ensures
        r == sine(angle as int),
        -SCALE <= r <= SCALE,
{
    let a = modulo(angle, FULL_TURN);
    if a <= HALF_TURN {
        sin_of_half_turn(a)
    } else {
        -sin_of_half_turn(a - HALF_TURN)
    }
}

/// The cosine of `angle`, in thousandths.
pub fn cos(angle: i64) -> (r: i64)
    ensures
        r == cosine(angle as int),
        -SCALE <= r <= SCALE,
{
    let a = modulo(angle, FULL_TURN);
    sin(a + QUARTER_TURN)
}

fn arctan_ratio(z: i64) -> (r: i64)
    requires
        0 <= z <= SCALE,
    ensures
        r == arctan_of_ratio(z as int),
        0 <= r <= 785,
{
    proof {
        lemma_arctan_of_ratio_range(z as int);
    }
    (785 * z + 273 * (z * (SCALE - z)) / 1000) / 1000
}

fn ratio_in_thousandths(small: i128, large: i128) -> (z: i64)
    requires
        0 <= small <= large,
        0 < large <= 0x8000_0000_0000_0000,
    ensures
        z == small * SCALE / (large as int),
        0 <= z <= SCALE,
{
    let q: i128 = small * (SCALE as i128) / large;
    assert(0 <= q <= SCALE) by (nonlinear_arith)
        requires
            0 <= small <= large,
            large > 0,
            q == small * SCALE / (large as int),
            SCALE == 1000,
    ;
    q as i64
}

fn bearing_first_quadrant(x: i128, y: i128) -> (r: i64)
    requires
        0 <= x <= 0x8000_0000_0000_0000,
        0 <= y <= 0x8000_0000_0000_0000,
        x + y > 0,
    ensures
        r == bearing_in_first_quadrant(x as int, y as int),
        0 <= r <= QUARTER_TURN,
{
    if y <= x {
        arctan_ratio(ratio_in_thousandths(y, x))
    } else {
        QUARTER_TURN - arctan_ratio(ratio_in_thousandths(x, y))
    }
}

/// The bearing of the direction `(x, y)`, in milliradians.
pub fn atan2(y: i64, x: i64) -> (r: i64)
    ensures
        r == bearing(x as int, y as int),
        -HALF_TURN <= r <= HALF_TURN,
{
    let wx: i128 = x as i128;
    let wy: i128 = y as i128;
    if x == 0 && y == 0 {
        0
    } else if x >= 0 && y >= 0 {
        bearing_first_quadrant(wx, wy)
    } else if x < 0 && y >= 0 {
        HALF_TURN - bearing_first_quadrant(-wx, wy)
    } else if x < 0 && y < 0 {
        bearing_first_quadrant(-wx, -wy) - HALF_TURN
    } else {
        -bearing_first_quadrant(wx, -wy)
    }
}

} // verus!
