//! Two-dimensional vectors and the geometry of the toroidal world.
use vstd::prelude::*;
use crate::arith::{
    abs,
    div_trunc,
    integrate,
    is_sqrt_floor,
    isqrt,
    lemma_mul_bound,
    lemma_sqrt_floor_unique,
    over_time,
    RATE_LIMIT,
};
use crate::constants::{FULL_TURN, HALF_TURN, SCALE, WORLD_SIZE};
use crate::trig::{
    atan2,
    bearing,
    cos,
    cosine,
    lemma_cosine_range,
    lemma_sine_range,
    sin,
    sine,
    turn_between,
};

verus! {

/// Largest magnitude of a coordinate that the toroidal functions accept.
pub const COORD_LIMIT: i64 = 1_000_000_000;

/// Largest magnitude of a component of a vector whose squared norm is taken.
pub const NORM_LIMIT: i64 = 2_147_483_647;

/// Largest magnitude of a length handed to `Vec2::from_direction`.
pub const LENGTH_LIMIT: i64 = 1_000_000_000_000;

/// A vector, or a position, in the plane.
#[derive(Clone, Copy, Debug, PartialEq, Eq, Structural)]
pub struct Vec2 {
    pub x: i64,
    pub y: i64,
}

/// The vector with the components `x` and `y`.
pub fn vec2(x: i64, y: i64) -> (r: Vec2)
    ensures
        r == (Vec2 { x, y }),
{
    Vec2 { x, y }
}

/// The remainder of `x` by a positive `div`, never negative.
pub fn modulo(x: i64, div: i64) -> (r: i64)
    requires
        div > 0,
    ensures
        r == x % div,
        0 <= r < div,
{
    let rem = x % div;
    proof {
        if x < 0 {
            let n = -(x as int);
            let d = div as int;
            vstd::arithmetic::div_mod::lemma_fundamental_div_mod(n, d);
            let q = n / d;
            if n % d == 0 {
                assert(x == d * (-q)) by (nonlinear_arith)
                    requires
                        n == d * q,
                        x == -n,
                ;
                vstd::arithmetic::div_mod::lemma_fundamental_div_mod_converse(x as int, d, -q, 0);
            } else {
                assert(x == (-q - 1) * d + (d - n % d)) by (nonlinear_arith)
                    requires
                        n == d * q + n % d,
                        x == -n,
                ;
                vstd::arithmetic::div_mod::lemma_fundamental_div_mod_converse(
                    x as int,
                    d,
                    -q - 1,
                    d - n % d,
                );
            }
        }
    }
    if rem < 0 {
        rem + div
    } else {
        rem
    }
}

/// `pos` lies in the world: both coordinates are reduced modulo its size.
pub open spec fn in_world(pos: Vec2) -> bool {
    0 <= pos.x < WORLD_SIZE && 0 <= pos.y < WORLD_SIZE
}

/// `pos` reduced modulo the size of the world on both axes.
pub open spec fn wrapped(pos: Vec2) -> Vec2 {
    Vec2 { x: (pos.x % WORLD_SIZE) as i64, y: (pos.y % WORLD_SIZE) as i64 }
}

/// `pos` reduced modulo the size of the world on both axes.
pub fn wrap_around(pos: Vec2) -> (r: Vec2)
    ensures
        r == wrapped(pos),
        in_world(r),
{
    vec2(modulo(pos.x, WORLD_SIZE), modulo(pos.y, WORLD_SIZE))
}

/// The position reached from `pos` by the displacement `(dx, dy)`, wrapped
/// into the world.
pub open spec fn displaced(pos: Vec2, dx: int, dy: int) -> Vec2 {
    Vec2 {
        x: ((pos.x + dx) % (WORLD_SIZE as int)) as i64,
        y: ((pos.y + dy) % (WORLD_SIZE as int)) as i64,
    }
}

/// The position reached from `pos` after `delta` microseconds at `velocity`,
/// wrapped into the world.
pub open spec fn advanced(pos: Vec2, velocity: Vec2, delta: int) -> Vec2 {
    displaced(pos, over_time(velocity.x as int, delta), over_time(velocity.y as int, delta))
}

/// The position reached from `pos` after `delta` microseconds at `velocity`,
/// wrapped into the world.
pub fn advance(pos: Vec2, velocity: Vec2, delta: u16) -> (r: Vec2)
    requires
        pos.fits(),
        velocity.within(RATE_LIMIT as int),
    ensures
        r == advanced(pos, velocity, delta as int),
        in_world(r),
{
    let dx = integrate(velocity.x, delta);
    let dy = integrate(velocity.y, delta);
    Vec2 { x: modulo(pos.x + dx, WORLD_SIZE), y: modulo(pos.y + dy, WORLD_SIZE) }
}

/// The signed turn that leads from `source_angle` to `target_angle` the short
/// way round.
pub fn angle_diff(source_angle: i64, target_angle: i64) -> (r: i64)
    ensures
        r == turn_between(source_angle as int, target_angle as int),
        -HALF_TURN <= r < HALF_TURN,
{
    let shifted: i128 = target_angle as i128 - source_angle as i128 + HALF_TURN as i128;
    let rem: i128 = shifted % (FULL_TURN as i128);
    let full: i128 = FULL_TURN as i128;
    let reduced: i128 = if rem < 0 {
        rem + full
    } else {
        rem
    };
    (reduced - HALF_TURN as i128) as i64
}

/// Of `d` and its images one world size below and above, the one of smallest
/// magnitude; of two that are equally small, the lower.
pub open spec fn nearest_image(d: int) -> int {
    let below = d - WORLD_SIZE;
    let above = d + WORLD_SIZE;
    let best = if abs(d) < abs(below) {
        d
    } else {
        below
    };
    if abs(above) < abs(best) {
        above
    } else {
        best
    }
}

/// The displacement from `a` to `b` the short way round the torus.
pub open spec fn closest_vector(a: Vec2, b: Vec2) -> Vec2 {
    Vec2 { x: nearest_image(b.x - a.x) as i64, y: nearest_image(b.y - a.y) as i64 }
}

/// The square of the distance from `a` to `b` the short way round the torus.
pub open spec fn toroidal_distance_squared(a: Vec2, b: Vec2) -> int {
    closest_vector(a, b).norm_squared()
}

fn nearest_image_of(d: i64) -> (r: i64)
    requires
        abs(d as int) <= 2 * COORD_LIMIT,
    ensures
        r == nearest_image(d as int),
        abs(r as int) <= abs(d as int),
        -WORLD_SIZE < d < WORLD_SIZE ==> 2 * abs(r as int) <= WORLD_SIZE,
{
    let below = d - WORLD_SIZE;
    let above = d + WORLD_SIZE;
    let best = if magnitude(d) < magnitude(below) {
        d
    } else {
        below
    };
    if magnitude(above) < magnitude(best) {
        above
    } else {
        best
    }
}

fn magnitude(v: i64) -> (r: i64)
    requires
        v > i64::MIN,
    ensures
        r == abs(v as int),
{
    if v >= 0 {
        v
    } else {
        -v
    }
}

/// The displacement from `a` to `b` across the world's edges: of the nine
/// images of `b - a` shifted by minus one, zero or one world size on each
/// axis, the one of smallest magnitude.
pub fn closest_vector_to(a: Vec2, b: Vec2) -> (r: Vec2)
    requires
        a.fits(),
        b.fits(),
    ensures
        r == closest_vector(a, b),
        abs(r.x as int) <= abs(b.x - a.x),
        abs(r.y as int) <= abs(b.y - a.y),
        in_world(a) && in_world(b) ==> 2 * abs(r.x as int) <= WORLD_SIZE && 2 * abs(r.y as int)
            <= WORLD_SIZE,
{
    vec2(nearest_image_of(b.x - a.x), nearest_image_of(b.y - a.y))
}

/// The square of the distance from `a` to `b` across the world's edges.
pub fn toroidal_distance_sq(a: Vec2, b: Vec2) -> (r: i64)
    requires
        in_world(a),
        in_world(b),
    ensures
        r == toroidal_distance_squared(a, b),
        0 <= r <= WORLD_SIZE * WORLD_SIZE / 2,
{
    let c = closest_vector_to(a, b);
    proof {
        lemma_square_bound(c.x as int, WORLD_SIZE / 2);
        lemma_square_bound(c.y as int, WORLD_SIZE / 2);
    }
    c.norm_sq()
}

/// The square of a number is bounded by the square of a bound on its
/// magnitude.
pub proof fn lemma_square_bound(v: int, limit: int)
    by (nonlinear_arith)
    requires
        abs(v) <= limit,
    ensures
        0 <= v * v <= limit * limit,
{
}

/// A number and its magnitude have the same square.
pub proof fn lemma_square_of_abs(v: int)
    by (nonlinear_arith)
    ensures
        abs(v) * abs(v) == v * v,
{
}

/// Squares grow with magnitudes.
pub proof fn lemma_square_monotonic(v: int, w: int)
    by (nonlinear_arith)
    requires
        abs(v) <= abs(w),
    ensures
        v * v <= w * w,
{
}

/// `v` is the image of the displacement from `a` to `b` that lies `m` tiles
/// along x and `n` tiles along y.
pub open spec fn is_image_in_tile(v: Vec2, a: Vec2, b: Vec2, m: int, n: int) -> bool {
    v.x == b.x - a.x + m * WORLD_SIZE && v.y == b.y - a.y + n * WORLD_SIZE
}

/// The square of the length of the image of the displacement from `a` to `b`
/// that lies `m` tiles along x and `n` tiles along y.
pub open spec fn image_norm_squared(a: Vec2, b: Vec2, m: int, n: int) -> int {
    (b.x - a.x + m * WORLD_SIZE) * (b.x - a.x + m * WORLD_SIZE) + (b.y - a.y + n * WORLD_SIZE) * (
    b.y - a.y + n * WORLD_SIZE)
}

/// The toroidal distance is the true minimum: for two positions of the world,
/// the displacement that `closest_vector_to` returns is one of the nine
/// images of `b - a` in the neighbouring tiles, no image of `b - a` in any
/// tile, near or far, is shorter, and it leads from `a` to `b` once wrapped.
pub proof fn lemma_closest_vector_is_minimal(a: Vec2, b: Vec2, i: int, j: int)
    requires
        in_world(a),
        in_world(b),
    ensures
        exists|m: int, n: int|
            -1 <= m <= 1 && -1 <= n <= 1 && #[trigger] is_image_in_tile(
                closest_vector(a, b),
                a,
                b,
                m,
                n,
            ),
        toroidal_distance_squared(a, b) <= image_norm_squared(a, b, i, j),
        displaced(a, closest_vector(a, b).x as int, closest_vector(a, b).y as int) == b,
{
    let dx = b.x - a.x;
    let dy = b.y - a.y;
    let cx = nearest_image(dx);
    let cy = nearest_image(dy);
    lemma_square_monotonic(cx, dx + i * WORLD_SIZE);
    lemma_square_monotonic(cy, dy + j * WORLD_SIZE);
    let m: int = if cx == dx - WORLD_SIZE {
        -1
    } else if cx == dx {
        0
    } else {
        1
    };
    let n: int = if cy == dy - WORLD_SIZE {
        -1
    } else if cy == dy {
        0
    } else {
        1
    };
    assert(is_image_in_tile(closest_vector(a, b), a, b, m, n));
}

/// The toroidal distance does not depend on the direction in which it is
/// measured.
pub proof fn lemma_toroidal_distance_symmetric(a: Vec2, b: Vec2)
    requires
        in_world(a),
        in_world(b),
    ensures
        toroidal_distance_squared(a, b) == toroidal_distance_squared(b, a),
{
    let dx = b.x - a.x;
    let dy = b.y - a.y;
    lemma_square_monotonic(nearest_image(dx), nearest_image(-dx));
    lemma_square_monotonic(nearest_image(-dx), nearest_image(dx));
    lemma_square_monotonic(nearest_image(dy), nearest_image(-dy));
    lemma_square_monotonic(nearest_image(-dy), nearest_image(dy));
}

impl Vec2 {
    /// Both coordinates are within `COORD_LIMIT` of zero.
    pub open spec fn fits(self) -> bool {
        abs(self.x as int) <= COORD_LIMIT && abs(self.y as int) <= COORD_LIMIT
    }

    /// Whether the position lies in the world.
    pub fn is_in_world(self) -> (r: bool)
        ensures
            r == in_world(self),
    {
        0 <= self.x && self.x < WORLD_SIZE && 0 <= self.y && self.y < WORLD_SIZE
    }

    /// Whether both components are within `limit` of zero.
    pub fn is_within(self, limit: i64) -> (r: bool)
        requires
            limit >= 0,
        ensures
            r == self.within(limit as int),
    {
        -limit <= self.x && self.x <= limit && -limit <= self.y && self.y <= limit
    }

    /// Both components are within `limit` of zero.
    pub open spec fn within(self, limit: int) -> bool {
        abs(self.x as int) <= limit && abs(self.y as int) <= limit
    }

    /// The square of the vector's length.
    pub open spec fn norm_squared(self) -> int {
        self.x * self.x + self.y * self.y
    }

    /// The sum of two vectors.
    pub fn add(self, other: Vec2) -> (r: Vec2)
        requires
            i64::MIN <= self.x + other.x <= i64::MAX,
            i64::MIN <= self.y + other.y <= i64::MAX,
        ensures
            r.x == self.x + other.x,
            r.y == self.y + other.y,
    {
        Vec2 { x: self.x + other.x, y: self.y + other.y }
    }

    /// Adds `other` to the vector.
    pub fn add_assign(&mut self, other: Vec2)
        requires
            i64::MIN <= old(self).x + other.x <= i64::MAX,
            i64::MIN <= old(self).y + other.y <= i64::MAX,
        ensures
            final(self).x == old(self).x + other.x,
            final(self).y == old(self).y + other.y,
    {
        self.x = self.x + other.x;
        self.y = self.y + other.y;
    }

    /// The difference of two vectors.
    pub fn sub(self, other: Vec2) -> (r: Vec2)
        requires
            i64::MIN <= self.x - other.x <= i64::MAX,
            i64::MIN <= self.y - other.y <= i64::MAX,
        ensures
            r.x == self.x - other.x,
            r.y == self.y - other.y,
    {
        Vec2 { x: self.x - other.x, y: self.y - other.y }
    }

    /// The opposite vector.
    pub fn neg(self) -> (r: Vec2)
        requires
            self.x > i64::MIN,
            self.y > i64::MIN,
        ensures
            r.x == -self.x,
            r.y == -self.y,
    {
        Vec2 { x: -self.x, y: -self.y }
    }

    /// The vector scaled by `factor`, a ratio in thousandths; each component
    /// is rounded toward zero.
    pub fn mul(self, factor: i64) -> (r: Vec2)
        requires
            i64::MIN <= self.x * factor <= i64::MAX,
            i64::MIN <= self.y * factor <= i64::MAX,
        ensures
            r.x == div_trunc(self.x * factor, SCALE as int),
            r.y == div_trunc(self.y * factor, SCALE as int),
    {
        Vec2 { x: self.x * factor / SCALE, y: self.y * factor / SCALE }
    }

    /// The vector divided by `divisor`, a positive ratio in thousandths; each
    /// component is rounded toward zero.
    pub fn div(self, divisor: i64) -> (r: Vec2)
        requires
            divisor > 0,
            i64::MIN <= self.x * SCALE <= i64::MAX,
            i64::MIN <= self.y * SCALE <= i64::MAX,
        ensures
            r.x == div_trunc(self.x * SCALE, divisor as int),
            r.y == div_trunc(self.y * SCALE, divisor as int),
    {
        Vec2 { x: self.x * SCALE / divisor, y: self.y * SCALE / divisor }
    }

    /// The vector of the given `length` that points along `angle`.
    pub fn from_direction(angle: i64, length: i64) -> (r: Vec2)
        requires
            abs(length as int) <= LENGTH_LIMIT,
        ensures
            r == Self::direction(angle as int, length as int),
            r.within(abs(length as int)),
    {
        let c = cos(angle);
        let s = sin(angle);
        proof {
            Self::lemma_direction_within(angle as int, length as int);
        }
        Vec2 { x: c * length / SCALE, y: s * length / SCALE }
    }

    /// The vector of the given `length` that points along `angle`.
    pub open spec fn direction(angle: int, length: int) -> Vec2 {
        Vec2 {
            x: div_trunc(cosine(angle) * length, SCALE as int) as i64,
            y: div_trunc(sine(angle) * length, SCALE as int) as i64,
        }
    }

    /// No component of a direction vector exceeds its length.
    pub proof fn lemma_direction_within(angle: int, length: int)
        requires
            abs(length) <= LENGTH_LIMIT,
        ensures
            abs(div_trunc(cosine(angle) * length, SCALE as int)) <= abs(length),
            abs(div_trunc(sine(angle) * length, SCALE as int)) <= abs(length),
            Self::direction(angle, length).within(abs(length)),
    {
        lemma_cosine_range(angle);
        lemma_sine_range(angle);
        let c = cosine(angle);
        let s = sine(angle);
        lemma_mul_bound(c, length, SCALE as int, abs(length));
        lemma_mul_bound(s, length, SCALE as int, abs(length));
    }

    /// The square of the vector's length.
    pub fn norm_sq(self) -> (r: i64)
        requires
            self.within(NORM_LIMIT as int),
        ensures
            r == self.norm_squared(),
            r >= 0,
    {
        proof {
            lemma_square_bound(self.x as int, NORM_LIMIT as int);
            lemma_square_bound(self.y as int, NORM_LIMIT as int);
        }
        self.x * self.x + self.y * self.y
    }

    /// The vector's length, rounded down.
    pub fn norm(self) -> (r: i64)
        requires
            self.within(NORM_LIMIT as int),
        ensures
            is_sqrt_floor(self.norm_squared(), r as int),
            abs(self.x as int) <= r,
            abs(self.y as int) <= r,
            r <= abs(self.x as int) + abs(self.y as int),
    {
        let n = self.norm_sq();
        let r = isqrt(n as u64);
        proof {
            let x = abs(self.x as int);
            let y = abs(self.y as int);
            let rr = r as int;
            lemma_square_of_abs(self.x as int);
            lemma_square_of_abs(self.y as int);
            assert(x <= rr && y <= rr && rr <= x + y) by (nonlinear_arith)
                requires
                    rr >= 0,
                    x >= 0,
                    y >= 0,
                    rr * rr <= x * x + y * y < (rr + 1) * (rr + 1),
            ;
        }
        r as i64
    }

    /// The vector of length one (a thousand thousandths) along this vector;
    /// the zero vector for the zero vector.
    pub fn normalize(self) -> (r: Vec2)
        requires
            self.within(NORM_LIMIT as int),
        ensures
            r == self.normalized(),
            r.within(SCALE as int),
    {
        let n = self.norm();
        if n == 0 {
            self
        } else {
            proof {
                self.lemma_normalized(n as int);
            }
            self.div(n)
        }
    }

    /// The integer square root of the squared norm.
    pub open spec fn norm_floor(self) -> int {
        choose|r: int| is_sqrt_floor(self.norm_squared(), r)
    }

    /// The vector of length one (a thousand thousandths) along this vector;
    /// the zero vector for the zero vector.
    pub open spec fn normalized(self) -> Vec2 {
        if self.x == 0 && self.y == 0 {
            self
        } else {
            Vec2 {
                x: div_trunc(self.x * SCALE, self.norm_floor()) as i64,
                y: div_trunc(self.y * SCALE, self.norm_floor()) as i64,
            }
        }
    }

    /// The bearing of the vector.
    pub fn angle(self) -> (r: i64)
        ensures
            r == bearing(self.x as int, self.y as int),
            -HALF_TURN <= r <= HALF_TURN,
    {
        atan2(self.y, self.x)
    }

    /// The distance to `other`, rounded down.
    pub fn distance_to(self, other: Vec2) -> (r: i64)
        requires
            self.fits(),
            other.fits(),
        ensures
            is_sqrt_floor(
                (self.x - other.x) * (self.x - other.x) + (self.y - other.y) * (self.y - other.y),
                r as int,
            ),
    {
        self.sub(other).norm()
    }

    /// The dot product of two vectors.
    pub fn dot(self, other: Vec2) -> (r: i64)
        requires
            self.within(NORM_LIMIT as int),
            other.within(NORM_LIMIT as int),
        ensures
            r == self.x * other.x + self.y * other.y,
    {
        proof {
            let limit = NORM_LIMIT as int;
            lemma_mul_bound(self.x as int, other.x as int, limit, limit);
            lemma_mul_bound(self.y as int, other.y as int, limit, limit);
        }
        self.x * other.x + self.y * other.y
    }

    /// Where `n` is the integer square root of the squared norm, it is the
    /// length that `normalized` divides by, and no component of the
    /// normalized vector exceeds one.
    pub proof fn lemma_normalized(self, n: int)
        requires
            is_sqrt_floor(self.norm_squared(), n),
        ensures
            self.norm_floor() == n,
            abs(self.x as int) <= n,
            abs(self.y as int) <= n,
            self.normalized().within(SCALE as int),
    {
        lemma_sqrt_floor_unique(self.norm_squared(), n, self.norm_floor());
        let x = abs(self.x as int);
        let y = abs(self.y as int);
        lemma_square_of_abs(self.x as int);
        lemma_square_of_abs(self.y as int);
        assert(x <= n && y <= n) by (nonlinear_arith)
            requires
                n >= 0,
                x >= 0,
                y >= 0,
                n * n <= x * x + y * y < (n + 1) * (n + 1),
                x == abs(self.x as int),
                y == abs(self.y as int),
        ;
        if !(self.x == 0 && self.y == 0) {
            Self::lemma_unit_component(self.x as int, n);
            Self::lemma_unit_component(self.y as int, n);
        }
    }

    /// A component divided by a length that bounds it is at most one.
    pub proof fn lemma_unit_component(c: int, n: int)
        by (nonlinear_arith)
        requires
            n > 0,
            abs(c) <= n,
        ensures
            abs(div_trunc(c * SCALE, n)) <= SCALE,
    {
    }
}

} // verus!
