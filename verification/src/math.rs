//! Scalar helpers of the renderer: angle conversion, clamping, linear
//! interpolation and the uniform random draw.

use vstd::prelude::*;
use crate::fixed::{Fx, fx_add, fx_sub, fx_mul, fx_div, fx_ok, FX_ONE, SCALE, FX_MAX};
use crate::rng::{RngSource, next_unit};
use crate::trig::FX_PI;
use crate::vector::{Vector3, Vec3i, vadd, vscale};

verus! {

/// Clamping a value into `[lo, hi]`.
pub open spec fn fx_clamp3(x: int, lo: int, hi: int) -> int {
    if x < lo {
        lo
    } else if x > hi {
        hi
    } else {
        x
    }
}

/// Linear interpolation `(1 - t) * start + t * end` in fixed point.
pub open spec fn fx_lerp(start: int, end: int, t: int) -> int {
    fx_add(fx_mul(fx_sub(FX_ONE as int, t), start), fx_mul(t, end))
}

/// Component-wise linear interpolation between two vectors.
pub open spec fn vlerp(start: Vec3i, end: Vec3i, t: int) -> Vec3i {
    vadd(vscale(start, fx_sub(FX_ONE as int, t)), vscale(end, t))
}

/// Degrees to radians: `degree * pi / 180`.
pub fn deg_to_rad(degree: Fx) -> (r: Fx)
    ensures
        r@ == fx_div(fx_mul(degree@, FX_PI as int), 180 * (FX_ONE as int)),
{
    degree.mul(Fx(FX_PI)).div(Fx(180 * FX_ONE))
}

pub fn clamp(x: Fx, min: Fx, max: Fx) -> (r: Fx)
    ensures
        r@ == fx_clamp3(x@, min@, max@),
{
    if x.0 < min.0 {
        return min;
    }
    if x.0 > max.0 {
        return max;
    }
    x
}

pub fn lerp(start: Fx, end: Fx, t: Fx) -> (r: Fx)
    ensures
        r@ == fx_lerp(start@, end@, t@),
{
    Fx(FX_ONE).sub(t).mul(start).add(t.mul(end))
}

pub fn lerp_vec(start: Vector3, end: Vector3, t: Fx) -> (r: Vector3)
    ensures
        r@ == vlerp(start@, end@, t@),
{
    start.scalar_mul(Fx(FX_ONE).sub(t)).add(end.scalar_mul(t))
}

/// A uniform draw from `[min, max]`: a unit sample `y` scaled as
/// `(max - min) * y + min`. Only the range of the result is promised.
pub fn random_fx(rng: &mut RngSource, min: Fx, max: Fx) -> (r: Fx)
    ensures
        exists|y: int|
            0 <= y < SCALE && r@ == fx_add(fx_mul(fx_sub(max@, min@), y), min@),
        fx_ok(min@) && fx_ok(max@) && min@ <= max@ ==> min@ <= r@ <= max@,
{
    let y: i64 = next_unit(rng);
    let d: Fx = max.sub(min);
    let r: Fx = d.mul(Fx(y)).add(min);
    proof {
        lemma_rand_scaled_bounds(min@, max@, y as int);
        assert(r@ == fx_add(fx_mul(fx_sub(max@, min@), y as int), min@));
    }
    r
}

/// Range of the scaled unit sample: for ordered in-range bounds the draw
/// stays inside them.
proof fn lemma_rand_scaled_bounds(min: int, max: int, y: int)
    requires
        0 <= y < SCALE,
    ensures
        fx_ok(min) && fx_ok(max) && min <= max ==> min <= fx_add(
            fx_mul(fx_sub(max, min), y),
            min,
        ) <= max,
{
    if fx_ok(min) && fx_ok(max) && min <= max {
        let d = fx_sub(max, min);
        assert(0 <= d <= FX_MAX as int);
        assert(d <= max - min || d == FX_MAX as int);
        let p = d * y;
        assert(0 <= d * y && d * y <= d * (SCALE as int)) by (nonlinear_arith)
            requires
                0 <= y < SCALE && d >= 0,
        ;
        let q = crate::fixed::div_trunc(p, SCALE as int);
        assert(q == p / (SCALE as int));
        assert(0 <= p / (SCALE as int) && p / (SCALE as int) <= d) by (nonlinear_arith)
            requires
                0 <= p <= d * (SCALE as int) && SCALE == 65536,
        ;
        assert(fx_mul(d, y) == q);
        assert(min <= min + q <= max);
    }
}

} // verus!
