//! Fixed-point approximations of the angle functions the renderer needs:
//! the tangent for the camera's field of view and the arctangent and
//! arccosine family for spherical surface coordinates.
//!
//! `fx_sin` and `fx_cos` evaluate truncated Taylor series in Horner form,
//! accurate on `[0, pi/2]`, which is the range the camera hands them.
//! `fx_atan` uses a cubic polynomial approximation of the arctangent on the
//! unit interval, extended by the identity `atan(z) = pi/2 - atan(1/z)` and
//! oddness. Each function's contract states exactly the fixed-point value it
//! computes, via a spec mirror; how close that value is to the real function
//! is an approximation question outside the contracts.

use vstd::prelude::*;
use crate::fixed::{Fx, fx_add, fx_sub, fx_mul, fx_div, fx_neg, fx_sqrt, FX_ONE};

verus! {

/// `pi` on the fixed-point grid.
pub const FX_PI: i64 = 205887;

/// `2 * pi` on the fixed-point grid.
pub const FX_TAU: i64 = 411775;

/// `pi / 2` on the fixed-point grid.
pub const FX_HALF_PI: i64 = 102944;

/// `pi / 4` on the fixed-point grid.
pub const FX_QUARTER_PI: i64 = 51472;

/// First coefficient of the arctangent polynomial, `0.2447`.
pub const ATAN_C1: i64 = 16037;

/// Second coefficient of the arctangent polynomial, `0.0663`.
pub const ATAN_C2: i64 = 4345;

pub open spec fn fx_sin_s(x: int) -> int {
    let x2 = fx_mul(x, x);
    let p5 = fx_sub(FX_ONE as int, fx_div(x2, 110 * (FX_ONE as int)));
    let p4 = fx_sub(FX_ONE as int, fx_mul(fx_div(x2, 72 * (FX_ONE as int)), p5));
    let p3 = fx_sub(FX_ONE as int, fx_mul(fx_div(x2, 42 * (FX_ONE as int)), p4));
    let p2 = fx_sub(FX_ONE as int, fx_mul(fx_div(x2, 20 * (FX_ONE as int)), p3));
    let p1 = fx_sub(FX_ONE as int, fx_mul(fx_div(x2, 6 * (FX_ONE as int)), p2));
    fx_mul(x, p1)
}

pub open spec fn fx_cos_s(x: int) -> int {
    let x2 = fx_mul(x, x);
    let q5 = fx_sub(FX_ONE as int, fx_div(x2, 90 * (FX_ONE as int)));
    let q4 = fx_sub(FX_ONE as int, fx_mul(fx_div(x2, 56 * (FX_ONE as int)), q5));
    let q3 = fx_sub(FX_ONE as int, fx_mul(fx_div(x2, 30 * (FX_ONE as int)), q4));
    let q2 = fx_sub(FX_ONE as int, fx_mul(fx_div(x2, 12 * (FX_ONE as int)), q3));
    fx_sub(FX_ONE as int, fx_mul(fx_div(x2, 2 * (FX_ONE as int)), q2))
}

pub open spec fn fx_tan_s(x: int) -> int {
    fx_div(fx_sin_s(x), fx_cos_s(x))
}

/// Polynomial arctangent on the unit interval:
/// `(pi/4) z + z (1 - z) (c1 + c2 z)`.
pub open spec fn fx_atan_unit_s(z: int) -> int {
    fx_add(
        fx_mul(FX_QUARTER_PI as int, z),
        fx_mul(fx_mul(z, fx_sub(FX_ONE as int, z)), fx_add(ATAN_C1 as int, fx_mul(ATAN_C2 as int, z))),
    )
}

pub open spec fn fx_atan_nn_s(z: int) -> int {
    if z <= FX_ONE as int {
        fx_atan_unit_s(z)
    } else {
        fx_sub(FX_HALF_PI as int, fx_atan_unit_s(fx_div(FX_ONE as int, z)))
    }
}

pub open spec fn fx_atan_s(z: int) -> int {
    if z >= 0 {
        fx_atan_nn_s(z)
    } else {
        fx_neg(fx_atan_nn_s(fx_neg(z)))
    }
}

/// Quadrant-aware arctangent of `y / x` with the usual conventions.
pub open spec fn fx_atan2_s(y: int, x: int) -> int {
    if x > 0 {
        fx_atan_s(fx_div(y, x))
    } else if x < 0 {
        if y >= 0 {
            fx_add(fx_atan_s(fx_div(y, x)), FX_PI as int)
        } else {
            fx_sub(fx_atan_s(fx_div(y, x)), FX_PI as int)
        }
    } else {
        if y > 0 {
            FX_HALF_PI as int
        } else if y < 0 {
            fx_neg(FX_HALF_PI as int)
        } else {
            0
        }
    }
}

/// Arccosine via `atan2(sqrt(1 - x^2), x)`, clamped at the endpoints.
pub open spec fn fx_acos_s(x: int) -> int {
    if x >= FX_ONE as int {
        0
    } else if x <= -(FX_ONE as int) {
        FX_PI as int
    } else {
        fx_atan2_s(fx_sqrt(fx_sub(FX_ONE as int, fx_mul(x, x))), x)
    }
}

/// Truncated sine series, intended for `0 <= x <= pi/2`.
pub fn fx_sin(x: Fx) -> (r: Fx)
    ensures
        r@ == fx_sin_s(x@),
{
    let one = Fx(FX_ONE);
    let x2 = x.mul(x);
    let p5 = one.sub(x2.div(Fx(110 * FX_ONE)));
    let p4 = one.sub(x2.div(Fx(72 * FX_ONE)).mul(p5));
    let p3 = one.sub(x2.div(Fx(42 * FX_ONE)).mul(p4));
    let p2 = one.sub(x2.div(Fx(20 * FX_ONE)).mul(p3));
    let p1 = one.sub(x2.div(Fx(6 * FX_ONE)).mul(p2));
    x.mul(p1)
}

/// Truncated cosine series, intended for `0 <= x <= pi/2`.
pub fn fx_cos(x: Fx) -> (r: Fx)
    ensures
        r@ == fx_cos_s(x@),
{
    let one = Fx(FX_ONE);
    let x2 = x.mul(x);
    let q5 = one.sub(x2.div(Fx(90 * FX_ONE)));
    let q4 = one.sub(x2.div(Fx(56 * FX_ONE)).mul(q5));
    let q3 = one.sub(x2.div(Fx(30 * FX_ONE)).mul(q4));
    let q2 = one.sub(x2.div(Fx(12 * FX_ONE)).mul(q3));
    one.sub(x2.div(Fx(2 * FX_ONE)).mul(q2))
}

/// Tangent as the quotient of the two series; saturates as the angle nears
/// `pi/2`, where the real tangent diverges.
pub fn fx_tan(x: Fx) -> (r: Fx)
    ensures
        r@ == fx_tan_s(x@),
{
    fx_sin(x).div(fx_cos(x))
}

fn fx_atan_unit(z: Fx) -> (r: Fx)
    ensures
        r@ == fx_atan_unit_s(z@),
{
    let quarter = Fx(FX_QUARTER_PI);
    let head = quarter.mul(z);
    let tail = z.mul(Fx(FX_ONE).sub(z)).mul(Fx(ATAN_C1).add(Fx(ATAN_C2).mul(z)));
    head.add(tail)
}

fn fx_atan_nn(z: Fx) -> (r: Fx)
    ensures
        r@ == fx_atan_nn_s(z@),
{
    if z.0 <= FX_ONE {
        fx_atan_unit(z)
    } else {
        Fx(FX_HALF_PI).sub(fx_atan_unit(Fx(FX_ONE).div(z)))
    }
}

/// Arctangent over the whole line, odd in its argument.
pub fn fx_atan(z: Fx) -> (r: Fx)
    ensures
        r@ == fx_atan_s(z@),
{
    if z.0 >= 0 {
        fx_atan_nn(z)
    } else {
        fx_atan_nn(z.neg()).neg()
    }
}

/// Quadrant-aware arctangent of `y / x`.
pub fn fx_atan2(y: Fx, x: Fx) -> (r: Fx)
    ensures
        r@ == fx_atan2_s(y@, x@),
{
    if x.0 > 0 {
        fx_atan(y.div(x))
    } else if x.0 < 0 {
        if y.0 >= 0 {
            fx_atan(y.div(x)).add(Fx(FX_PI))
        } else {
            fx_atan(y.div(x)).sub(Fx(FX_PI))
        }
    } else {
        if y.0 > 0 {
            Fx(FX_HALF_PI)
        } else if y.0 < 0 {
            Fx(FX_HALF_PI).neg()
        } else {
            Fx(0)
        }
    }
}

/// Arccosine, with results in `[0, pi]`.
pub fn fx_acos(x: Fx) -> (r: Fx)
    ensures
        r@ == fx_acos_s(x@),
{
    if x.0 >= FX_ONE {
        Fx(0)
    } else if x.0 <= -FX_ONE {
        Fx(FX_PI)
    } else {
        let s = Fx(FX_ONE).sub(x.mul(x)).sqrt();
        fx_atan2(s, x)
    }
}

} // verus!
