//! Fixed-point quantities.
//!
//! Every physical quantity of the kernel is an integer count of thousandths:
//! a velocity of `6_000` is six units per second, a contact normal of
//! `(1_000, 0)` is the unit vector along x. Time is counted in whole
//! microseconds. All arithmetic is exact integer arithmetic; quotients are
//! rounded toward zero, so that mirrored inputs give mirrored results.

use vstd::prelude::*;

verus! {

/// The integer that stands for the quantity one.
pub const UNIT: i64 = 1_000;

/// Microseconds in a second.
pub const MICROS_PER_SECOND: i64 = 1_000_000;

/// The product `rate * dt` at which a blend has fully reached its target:
/// a rate of one (`UNIT`) applied for one second.
pub const FULL_BLEND: u64 = 1_000_000_000;

/// A pair of fixed-point coordinates.
#[derive(Clone, Copy, PartialEq, Eq, Debug, Structural)]
pub struct Vec2 {
    pub x: i64,
    pub y: i64,
}

/// The quotient of `a` by a positive `b`, rounded toward zero.
pub open spec fn trunc_div(a: int, b: int) -> int
    recommends
        b > 0,
{
    if a >= 0 {
        a / b
    } else {
        -((-a) / b)
    }
}

/// The value of `i64` nearest to `v`.
pub open spec fn clamp_to_i64(v: int) -> int {
    if v < i64::MIN {
        i64::MIN as int
    } else if v > i64::MAX {
        i64::MAX as int
    } else {
        v
    }
}

/// How far a blend at `rate` (thousandths per second) gets in `dt`
/// microseconds, out of `FULL_BLEND`. A long step lands on the target and
/// never beyond it.
pub open spec fn blend_weight(rate: int, dt: int) -> int {
    if rate * dt >= FULL_BLEND {
        FULL_BLEND as int
    } else {
        rate * dt
    }
}

/// Exponential approach: `v` moved toward `target` by the fraction
/// `blend_weight(rate, dt) / FULL_BLEND` of their distance.
pub open spec fn approach(v: int, target: int, rate: int, dt: int) -> int {
    v + trunc_div((target - v) * blend_weight(rate, dt), FULL_BLEND as int)
}

/// The fixed-point product of `a` and `b`, limited to what an `i64` holds.
pub open spec fn fixed_product(a: int, b: int) -> int {
    clamp_to_i64(trunc_div(a * b, UNIT as int))
}

/// The sum of `a` and `b`, limited to what an `i64` holds.
pub open spec fn bounded_sum(a: int, b: int) -> int {
    clamp_to_i64(a + b)
}

/// The distance covered in `dt` microseconds at `velocity`, in `scale`
/// output units per unit of distance, limited to what an `i64` holds.
pub open spec fn travelled(velocity: int, dt: int, scale: int) -> int {
    clamp_to_i64(trunc_div(velocity * dt * scale, MICROS_PER_SECOND as int))
}

/// The magnitude of `v`.
pub open spec fn magnitude(v: int) -> int {
    if v < 0 {
        -v
    } else {
        v
    }
}

/// A fraction `w / f` of a non-negative distance lies within that distance.
pub proof fn lemma_fraction_within(d: int, w: int, f: int)
    by (nonlinear_arith)
    requires
        0 <= d,
        0 <= w <= f,
        0 < f,
    ensures
        0 <= (d * w) / f <= d,
{
}

/// A blend weight is a fraction of `FULL_BLEND`.
pub proof fn lemma_blend_weight_bounds(rate: int, dt: int)
    by (nonlinear_arith)
    requires
        0 <= rate,
        0 <= dt,
    ensures
        0 <= blend_weight(rate, dt) <= FULL_BLEND,
{
}

/// An approach never leaves the interval between its start and its target,
/// never moves away from the target, and stays put where start and target
/// coincide.
pub proof fn lemma_approach_between(v: int, target: int, rate: int, dt: int)
    requires
        0 <= rate,
        0 <= dt,
    ensures
        v <= target ==> v <= approach(v, target, rate, dt) <= target,
        target <= v ==> target <= approach(v, target, rate, dt) <= v,
{
    let w = blend_weight(rate, dt);
    let f = FULL_BLEND as int;
    lemma_blend_weight_bounds(rate, dt);
    if v <= target {
        let d = target - v;
        lemma_fraction_within(d, w, f);
        assert(0 <= d * w) by (nonlinear_arith)
            requires
                0 <= d,
                0 <= w,
        ;
    } else {
        let d = v - target;
        lemma_fraction_within(d, w, f);
        assert((target - v) * w == -(d * w)) by (nonlinear_arith)
            requires
                d == v - target,
        ;
        assert(0 <= d * w) by (nonlinear_arith)
            requires
                0 <= d,
                0 <= w,
        ;
    }
}

/// A full-weight approach lands exactly on the target.
pub proof fn lemma_approach_full(v: int, target: int, rate: int, dt: int)
    requires
        rate * dt >= FULL_BLEND,
    ensures
        approach(v, target, rate, dt) == target,
{
    let f = FULL_BLEND as int;
    let d = target - v;
    assert(blend_weight(rate, dt) == f);
    if d >= 0 {
        assert((d * f) / f == d) by (nonlinear_arith)
            requires
                f > 0,
        ;
        assert(d * f >= 0) by (nonlinear_arith)
            requires
                d >= 0,
                f > 0,
        ;
    } else {
        assert(((-d) * f) / f == -d) by (nonlinear_arith)
            requires
                f > 0,
        ;
        assert(d * f < 0) by (nonlinear_arith)
            requires
                d < 0,
                f > 0,
        ;
        assert(-(d * f) == (-d) * f) by (nonlinear_arith);
    }
}

/// A step of no duration, or at rate zero, changes nothing.
pub proof fn lemma_approach_idle(v: int, target: int, rate: int, dt: int)
    requires
        rate == 0 || dt == 0,
    ensures
        approach(v, target, rate, dt) == v,
{
    assert(rate * dt == 0) by (nonlinear_arith)
        requires
            rate == 0 || dt == 0,
    ;
    assert((target - v) * 0 == 0);
}

/// Mirroring start and target mirrors the result.
pub proof fn lemma_approach_mirror(v: int, target: int, rate: int, dt: int)
    ensures
        approach(-v, -target, rate, dt) == -approach(v, target, rate, dt),
{
    let w = blend_weight(rate, dt);
    assert(((-target) - (-v)) * w == -((target - v) * w)) by (nonlinear_arith);
}

/// Computes `blend_weight`.
pub fn blend_weight_of(rate: u32, dt: u32) -> (w: u64)
    ensures
        w == blend_weight(rate as int, dt as int),
        w <= FULL_BLEND,
{
    assert(0 <= rate * dt <= 0xffff_ffff * 0xffff_ffff) by (nonlinear_arith)
        requires
            0 <= rate <= 0xffff_ffff,
            0 <= dt <= 0xffff_ffff,
    ;
    let product: u64 = (rate as u64) * (dt as u64);
    if product >= FULL_BLEND {
        FULL_BLEND
    } else {
        product
    }
}

/// Moves `v` toward `target` at `rate` (thousandths per second) for `dt`
/// microseconds.
pub fn approach_toward(v: i64, target: i64, rate: u32, dt: u32) -> (r: i64)
    ensures
        r == approach(v as int, target as int, rate as int, dt as int),
{
    let w: u64 = blend_weight_of(rate, dt);
    let d: i128 = (target as i128) - (v as i128);
    let wide: i128 = w as i128;
    assert(-0x1_0000_0000_0000_0000 * 1_000_000_000 <= d * wide <= 0x1_0000_0000_0000_0000
        * 1_000_000_000) by (nonlinear_arith)
        requires
            -0x1_0000_0000_0000_0000 <= d <= 0x1_0000_0000_0000_0000,
            0 <= wide <= 1_000_000_000,
    ;
    let q: i128 = (d * wide) / (FULL_BLEND as i128);
    proof {
        lemma_approach_between(v as int, target as int, rate as int, dt as int);
    }
    let r: i128 = (v as i128) + q;
    r as i64
}

/// Limits a wide integer to what an `i64` holds.
pub fn clamp_i64(v: i128) -> (r: i64)
    ensures
        r == clamp_to_i64(v as int),
{
    if v < (i64::MIN as i128) {
        i64::MIN
    } else if v > (i64::MAX as i128) {
        i64::MAX
    } else {
        v as i64
    }
}

/// Computes `fixed_product`.
pub fn fixed_mul(a: i64, b: i64) -> (r: i64)
    ensures
        r == fixed_product(a as int, b as int),
{
    let x: i128 = a as i128;
    let y: i128 = b as i128;
    assert(-0x8000_0000_0000_0000 * 0x8000_0000_0000_0000 <= x * y <= 0x8000_0000_0000_0000
        * 0x8000_0000_0000_0000) by (nonlinear_arith)
        requires
            -0x8000_0000_0000_0000 <= x <= 0x8000_0000_0000_0000,
            -0x8000_0000_0000_0000 <= y <= 0x8000_0000_0000_0000,
    ;
    clamp_i64((x * y) / (UNIT as i128))
}

/// Computes `bounded_sum`.
pub fn saturating_sum(a: i64, b: i64) -> (r: i64)
    ensures
        r == bounded_sum(a as int, b as int),
{
    clamp_i64((a as i128) + (b as i128))
}

/// Computes `travelled`.
pub fn travel(velocity: i64, dt: u32, scale: u16) -> (r: i64)
    ensures
        r == travelled(velocity as int, dt as int, scale as int),
{
    let v: i128 = velocity as i128;
    let t: i128 = dt as i128;
    let s: i128 = scale as i128;
    assert(-0x8000_0000_0000_0000 * 0x1_0000_0000 <= v * t <= 0x8000_0000_0000_0000
        * 0x1_0000_0000) by (nonlinear_arith)
        requires
            -0x8000_0000_0000_0000 <= v <= 0x8000_0000_0000_0000,
            0 <= t <= 0x1_0000_0000,
    ;
    let vt: i128 = v * t;
    assert(-0x8000_0000_0000_0000 * 0x1_0000_0000 * 0x1_0000 <= vt * s <= 0x8000_0000_0000_0000
        * 0x1_0000_0000 * 0x1_0000) by (nonlinear_arith)
        requires
            -0x8000_0000_0000_0000 * 0x1_0000_0000 <= vt <= 0x8000_0000_0000_0000 * 0x1_0000_0000,
            0 <= s <= 0x1_0000,
    ;
    clamp_i64((vt * s) / (MICROS_PER_SECOND as i128))
}

impl Vec2 {
    /// The vector `(x, y)`.
    pub fn new(x: i64, y: i64) -> (v: Vec2)
        ensures
            v == (Vec2 { x, y }),
    {
        Vec2 { x, y }
    }

    /// The zero vector.
    pub fn zero() -> (v: Vec2)
        ensures
            v == (Vec2 { x: 0, y: 0 }),
    {
        Vec2 { x: 0, y: 0 }
    }

    /// The component-wise fixed-point product of two vectors.
    pub open spec fn scaled_by(self, factor: Vec2) -> Vec2 {
        Vec2 {
            x: fixed_product(self.x as int, factor.x as int) as i64,
            y: fixed_product(self.y as int, factor.y as int) as i64,
        }
    }

    /// The component-wise sum of two vectors, each component limited to
    /// what an `i64` holds.
    pub open spec fn plus(self, other: Vec2) -> Vec2 {
        Vec2 {
            x: bounded_sum(self.x as int, other.x as int) as i64,
            y: bounded_sum(self.y as int, other.y as int) as i64,
        }
    }

    /// Computes `scaled_by`.
    pub fn scale(self, factor: Vec2) -> (v: Vec2)
        ensures
            v == self.scaled_by(factor),
    {
        Vec2 { x: fixed_mul(self.x, factor.x), y: fixed_mul(self.y, factor.y) }
    }

    /// Computes `plus`.
    pub fn add_saturating(self, other: Vec2) -> (v: Vec2)
        ensures
            v == self.plus(other),
    {
        Vec2 { x: saturating_sum(self.x, other.x), y: saturating_sum(self.y, other.y) }
    }
}

} // verus!
