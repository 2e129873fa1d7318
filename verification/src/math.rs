//! Fixed-point scalars, vectors, and the particle motion law.
//!
//! Every scalar in the crate is an `i64` holding a world quantity times
//! [`SCALE`]: the value `1500` stands for one and a half world units.  All
//! arithmetic is exact integer arithmetic; products are divided back down by
//! [`SCALE`] with truncating division, the fixed-point reading of the real
//! formula.

use vstd::prelude::*;
use vstd::arithmetic::div_mod::{
    lemma_div_by_multiple, lemma_div_denominator, lemma_div_is_ordered_by_denominator,
    lemma_div_pos_is_pos, lemma_multiply_divide_le,
};
use vstd::arithmetic::mul::lemma_mul_is_commutative;
use vstd::math::abs;

verus! {

/// Number of fixed-point steps per world unit.
pub const SCALE: i64 = 1000;

/// Largest magnitude, in fixed-point steps, that the motion law accepts for
/// positions, velocities, accelerations and the time value.  The bound is a
/// machine limit only: it keeps every intermediate product inside `i128` and
/// the final position inside `i64`.
pub const COORD_LIMIT: i64 = 0x800_0000;

/// A two-component fixed-point vector (texture coordinates).
#[derive(Clone, Copy, Debug, PartialEq, Eq, Structural)]
pub struct Vec2 {
    /// First component, in fixed-point steps.
    pub x: i64,
    /// Second component, in fixed-point steps.
    pub y: i64,
}

/// A three-component fixed-point vector (positions, directions).
#[derive(Clone, Copy, Debug, PartialEq, Eq, Structural)]
pub struct Vec3 {
    /// First component, in fixed-point steps.
    pub x: i64,
    /// Second component, in fixed-point steps.
    pub y: i64,
    /// Third component, in fixed-point steps.
    pub z: i64,
}

/// Builds a [`Vec2`] from its components.
pub fn vec2(x: i64, y: i64) -> (r: Vec2)
    ensures
        r == (Vec2 { x, y }),
{
    Vec2 { x, y }
}

/// Builds a [`Vec3`] from its components.
pub fn vec3(x: i64, y: i64, z: i64) -> (r: Vec3)
    ensures
        r == (Vec3 { x, y, z }),
{
    Vec3 { x, y, z }
}

/// Truncating division: the quotient of `n` by `d` rounded towards zero,
/// the rounding used by machine integer division.
pub open spec fn tdiv(n: int, d: int) -> int
    recommends
        d != 0,
{
    if (n < 0) == (d < 0) {
        abs(n) as int / abs(d) as int
    } else {
        -(abs(n) as int / abs(d) as int)
    }
}

/// The magnitude of a truncated quotient is bounded by any `bound` whose
/// product with the divisor covers the numerator.
pub proof fn lemma_tdiv_bound(n: int, d: int, bound: int)
    requires
        0 < d,
        abs(n) <= d * bound,
    ensures
        -bound <= tdiv(n, d) <= bound,
{
    lemma_multiply_divide_le(abs(n) as int, d, bound);
    lemma_div_pos_is_pos(abs(n) as int, d);
}

/// Dividing an exact multiple of a positive divisor recovers the factor,
/// for either sign of the factor.
pub proof fn lemma_tdiv_multiples_vanish(v: int, d: int)
    requires
        0 < d,
    ensures
        tdiv(v * d, d) == v,
{
    if v >= 0 {
        lemma_div_by_multiple(v, d);
        assert(v * d >= 0) by (nonlinear_arith)
            requires
                v >= 0,
                d > 0,
        ;
    } else {
        lemma_div_by_multiple(-v, d);
        assert(v * d < 0 && (-v) * d == -(v * d)) by (nonlinear_arith)
            requires
                v < 0,
                d > 0,
        ;
    }
}

/// A common positive factor of numerator and divisor cancels out of a
/// truncated quotient.
pub proof fn lemma_tdiv_common_factor(x: int, y: int, m: int)
    requires
        0 < y,
        0 < m,
    ensures
        tdiv(x * m, y * m) == tdiv(x, y),
{
    if x >= 0 {
        assert(x * m >= 0) by (nonlinear_arith)
            requires
                x >= 0,
                m > 0,
        ;
    } else {
        assert(x * m < 0 && (-x) * m == -(x * m)) by (nonlinear_arith)
            requires
                x < 0,
                m > 0,
        ;
    }
    assert(y * m > 0) by (nonlinear_arith)
        requires
            y > 0,
            m > 0,
    ;
    let xa = abs(x) as int;
    assert(abs(x * m) == xa * m);
    lemma_div_denominator(xa * m, m, y);
    lemma_div_by_multiple(xa, m);
    lemma_mul_is_commutative(y, m);
    assert(abs(x * m) as int / abs(y * m) as int == xa / y);
}

/// Truncating division on `i128`, for a positive divisor.
pub(crate) fn tdiv_i128(n: i128, d: i128) -> (r: i128)
    requires
        0 < d,
        i128::MIN < n,
    ensures
        r == tdiv(n as int, d as int),
{
    let neg = n < 0;
    let nm: u128 = if neg {
        (-n) as u128
    } else {
        n as u128
    };
    let dm: u128 = d as u128;
    let q: u128 = nm / dm;
    proof {
        lemma_div_is_ordered_by_denominator(nm as int, 1, dm as int);
    }
    if neg {
        -(q as i128)
    } else {
        q as i128
    }
}

/// One component of the particle motion law.  In world quantities it reads
/// `p0 + v0 * t + a * t * t / 2`; here every factor carries one power of
/// [`SCALE`], so each product is divided back down.
pub open spec fn spec_position_component(p0: int, v0: int, a: int, t: int) -> int {
    p0 + tdiv(v0 * t, SCALE as int) + tdiv(a * t * t, 2 * (SCALE as int) * (SCALE as int))
}

/// The motion law at time zero returns the start position exactly.
pub proof fn lemma_position_at_time_zero(p0: int, v0: int, a: int)
    ensures
        spec_position_component(p0, v0, a, 0) == p0,
{
    assert(v0 * 0 == 0);
    assert(a * 0 * 0 == 0);
}

/// The motion law at time one (that is, at `t == SCALE`) returns exactly
/// the start position plus the start velocity plus half the acceleration.
pub proof fn lemma_position_at_time_one(p0: int, v0: int, a: int)
    ensures
        spec_position_component(p0, v0, a, SCALE as int) == p0 + v0 + tdiv(a, 2),
{
    lemma_tdiv_multiples_vanish(v0, SCALE as int);
    lemma_tdiv_common_factor(a, 2, (SCALE as int) * (SCALE as int));
    assert(a * (SCALE as int) * (SCALE as int) == a * ((SCALE as int) * (SCALE as int)))
        by (nonlinear_arith);
    assert(2 * (SCALE as int) * (SCALE as int) == 2 * ((SCALE as int) * (SCALE as int)))
        by (nonlinear_arith);
}

/// Evaluates one component of the motion law in fixed point.
pub fn position_component(p0: i64, v0: i64, a: i64, t: i64) -> (r: i64)
    requires
        -COORD_LIMIT <= p0 <= COORD_LIMIT,
        -COORD_LIMIT <= v0 <= COORD_LIMIT,
        -COORD_LIMIT <= a <= COORD_LIMIT,
        -COORD_LIMIT <= t <= COORD_LIMIT,
    ensures
        r == spec_position_component(p0 as int, v0 as int, a as int, t as int),
{
    proof {
        assert(-0x40_0000_0000_0000 <= (v0 as int) * (t as int) <= 0x40_0000_0000_0000)
            by (nonlinear_arith)
            requires
                -COORD_LIMIT <= v0 <= COORD_LIMIT,
                -COORD_LIMIT <= t <= COORD_LIMIT,
        ;
        assert(-0x40_0000_0000_0000 <= (a as int) * (t as int) <= 0x40_0000_0000_0000)
            by (nonlinear_arith)
            requires
                -COORD_LIMIT <= a <= COORD_LIMIT,
                -COORD_LIMIT <= t <= COORD_LIMIT,
        ;
    }
    let vt: i128 = (v0 as i128) * (t as i128);
    let term1: i128 = tdiv_i128(vt, SCALE as i128);
    let at_product: i128 = (a as i128) * (t as i128);
    proof {
        assert(-0x2_0000_0000_0000_0000_0000 <= (at_product as int) * (t as int)
            <= 0x2_0000_0000_0000_0000_0000) by (nonlinear_arith)
            requires
                -0x40_0000_0000_0000 <= at_product <= 0x40_0000_0000_0000,
                -COORD_LIMIT <= t <= COORD_LIMIT,
        ;
    }
    let att: i128 = at_product * (t as i128);
    let term2: i128 = tdiv_i128(att, 2 * (SCALE as i128) * (SCALE as i128));
    proof {
        lemma_tdiv_bound(vt as int, SCALE as int, 0x2000_0000_0000);
        lemma_tdiv_bound(att as int, 2 * (SCALE as int) * (SCALE as int), 0x2000_0000_0000_0000);
    }
    let sum: i128 = (p0 as i128) + term1 + term2;
    sum as i64
}

/// Evaluates the motion law for a whole particle: the position at time
/// `time` of a particle that started at `start_position` with velocity
/// `start_velocity` under constant `acceleration`.
pub fn position_at(start_position: Vec3, start_velocity: Vec3, acceleration: Vec3, time: i64) -> (r:
    Vec3)
    requires
        in_coord_range(start_position),
        in_coord_range(start_velocity),
        in_coord_range(acceleration),
        -COORD_LIMIT <= time <= COORD_LIMIT,
    ensures
        r.x == spec_position_component(
            start_position.x as int,
            start_velocity.x as int,
            acceleration.x as int,
            time as int,
        ),
        r.y == spec_position_component(
            start_position.y as int,
            start_velocity.y as int,
            acceleration.y as int,
            time as int,
        ),
        r.z == spec_position_component(
            start_position.z as int,
            start_velocity.z as int,
            acceleration.z as int,
            time as int,
        ),
{
    Vec3 {
        x: position_component(start_position.x, start_velocity.x, acceleration.x, time),
        y: position_component(start_position.y, start_velocity.y, acceleration.y, time),
        z: position_component(start_position.z, start_velocity.z, acceleration.z, time),
    }
}

/// All three components of a vector lie within [`COORD_LIMIT`].
pub open spec fn in_coord_range(v: Vec3) -> bool {
    &&& -COORD_LIMIT <= v.x <= COORD_LIMIT
    &&& -COORD_LIMIT <= v.y <= COORD_LIMIT
    &&& -COORD_LIMIT <= v.z <= COORD_LIMIT
}

} // verus!
