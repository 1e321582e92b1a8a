//! Three-component fixed-point vectors, used both as points in space and as
//! linear RGB colors.
//!
//! The mathematical model of a `Vector3` is a `Vec3i`: its three raw
//! fixed-point components as unbounded integers. Every operation's contract
//! is stated over that model with the spec functions `vadd`, `vmul`,
//! `vscale`, `vdot`, `vcross`, `vlen`, `vunit` and `vreflect`, which mirror
//! the saturating arithmetic exactly.

use vstd::prelude::*;
use crate::fixed::{
    Fx, fx_add, fx_sub, fx_mul, fx_div, fx_neg, fx_sqrt, fx_ok, FX_ONE, SCALE,
    lemma_fx_mul_neg, lemma_fx_mul_negone, lemma_fx_clamp_neg, lemma_fx_clamp_ok,
};
use crate::rng::RngSource;
use crate::math::random_fx;

verus! {

/// Mathematical model of a vector: the raw fixed-point components.
pub ghost struct Vec3i {
    pub a: int,
    pub b: int,
    pub c: int,
}

/// A vector of three fixed-point components. `a`, `b`, `c` double as x, y, z
/// for points and directions and as red, green, blue for colors.
#[derive(Clone, Copy, Debug, PartialEq, Eq, Structural)]
pub struct Vector3 {
    pub a: Fx,
    pub b: Fx,
    pub c: Fx,
}

/// A position or direction in space.
pub type Point = Vector3;

/// A linear RGB color.
pub type Color = Vector3;

impl View for Vector3 {
    type V = Vec3i;

    open spec fn view(&self) -> Vec3i {
        Vec3i { a: self.a@, b: self.b@, c: self.c@ }
    }
}

pub open spec fn vec_ok(v: Vec3i) -> bool {
    fx_ok(v.a) && fx_ok(v.b) && fx_ok(v.c)
}

/// A component by index, for contracts that quantify over all three.
pub open spec fn vcomp(v: Vec3i, ch: int) -> int {
    if ch == 0 {
        v.a
    } else if ch == 1 {
        v.b
    } else {
        v.c
    }
}

pub open spec fn vadd(u: Vec3i, v: Vec3i) -> Vec3i {
    Vec3i { a: fx_add(u.a, v.a), b: fx_add(u.b, v.b), c: fx_add(u.c, v.c) }
}

/// Component-wise product, the attenuation operation on colors.
pub open spec fn vmul(u: Vec3i, v: Vec3i) -> Vec3i {
    Vec3i { a: fx_mul(u.a, v.a), b: fx_mul(u.b, v.b), c: fx_mul(u.c, v.c) }
}

pub open spec fn vscale(u: Vec3i, k: int) -> Vec3i {
    Vec3i { a: fx_mul(u.a, k), b: fx_mul(u.b, k), c: fx_mul(u.c, k) }
}

pub open spec fn vdivs(u: Vec3i, k: int) -> Vec3i {
    Vec3i { a: fx_div(u.a, k), b: fx_div(u.b, k), c: fx_div(u.c, k) }
}

pub open spec fn vdot(u: Vec3i, v: Vec3i) -> int {
    fx_add(fx_add(fx_mul(u.a, v.a), fx_mul(u.b, v.b)), fx_mul(u.c, v.c))
}

pub open spec fn vcross(u: Vec3i, v: Vec3i) -> Vec3i {
    Vec3i {
        a: fx_sub(fx_mul(u.b, v.c), fx_mul(u.c, v.b)),
        b: fx_sub(fx_mul(u.c, v.a), fx_mul(u.a, v.c)),
        c: fx_sub(fx_mul(u.a, v.b), fx_mul(u.b, v.a)),
    }
}

pub open spec fn vlen(u: Vec3i) -> int {
    fx_sqrt(vdot(u, u))
}

pub open spec fn vunit(u: Vec3i) -> Vec3i {
    vdivs(u, vlen(u))
}

/// Specular reflection: `v + 2 * dot(v, n) * n`.
pub open spec fn vreflect(v: Vec3i, n: Vec3i) -> Vec3i {
    vadd(v, vscale(vscale(n, vdot(v, n)), 2 * (FX_ONE as int)))
}

/// The fixed-point grid holds no magnitude between zero and `1 / SCALE`, so
/// the near-zero test of the scatter model degenerates to exact zero.
pub open spec fn vnear_zero(v: Vec3i) -> bool {
    v.a == 0 && v.b == 0 && v.c == 0
}

/// What the rejection sampler guarantees of its result: components in range
/// and a squared length below one.
pub open spec fn vin_unit_sphere(v: Vec3i) -> bool {
    vec_ok(v) && fx_mul(vlen(v), vlen(v)) < FX_ONE as int
}

/// Attenuating black gives black.
pub proof fn lemma_vmul_zero(a: Vec3i)
    ensures
        vmul(a, Vec3i { a: 0int, b: 0int, c: 0int }) == (Vec3i { a: 0int, b: 0int, c: 0int }),
{
    assert(a.a * 0 == 0) by (nonlinear_arith);
    assert(a.b * 0 == 0) by (nonlinear_arith);
    assert(a.c * 0 == 0) by (nonlinear_arith);
}

/// Negating a vector with in-range components negates its dot product.
pub proof fn lemma_vdot_flip(u: Vec3i, n: Vec3i)
    requires
        vec_ok(u),
    ensures
        vdot(vscale(u, -(FX_ONE as int)), n) == fx_neg(vdot(u, n)),
{
    lemma_fx_mul_negone(u.a);
    lemma_fx_mul_negone(u.b);
    lemma_fx_mul_negone(u.c);
    lemma_fx_mul_neg(u.a, n.a);
    lemma_fx_mul_neg(u.b, n.b);
    lemma_fx_mul_neg(u.c, n.c);
    let x = fx_mul(u.a, n.a);
    let y = fx_mul(u.b, n.b);
    let z = fx_mul(u.c, n.c);
    lemma_fx_clamp_ok(x);
    lemma_fx_clamp_ok(y);
    lemma_fx_clamp_ok(z);
    lemma_fx_clamp_neg(x + y);
    lemma_fx_clamp_neg(fx_add(x, y) + z);
    lemma_fx_clamp_ok(fx_add(x, y));
}

/// Negating a vector with in-range components keeps its length.
pub proof fn lemma_vlen_flip(u: Vec3i)
    requires
        vec_ok(u),
    ensures
        vlen(vscale(u, -(FX_ONE as int))) == vlen(u),
        vec_ok(vscale(u, -(FX_ONE as int))),
{
    lemma_vdot_flip(u, vscale(u, -(FX_ONE as int)));
    let f = vscale(u, -(FX_ONE as int));
    lemma_fx_mul_negone(u.a);
    lemma_fx_mul_negone(u.b);
    lemma_fx_mul_negone(u.c);
    assert(f.a == -u.a && f.b == -u.b && f.c == -u.c);
    assert((-u.a) * (-u.a) == u.a * u.a) by (nonlinear_arith);
    assert((-u.b) * (-u.b) == u.b * u.b) by (nonlinear_arith);
    assert((-u.c) * (-u.c) == u.c * u.c) by (nonlinear_arith);
}

impl Vector3 {
    pub fn new(a: Fx, b: Fx, c: Fx) -> (r: Vector3)
        ensures
            r@ == (Vec3i { a: a@, b: b@, c: c@ }),
    {
        Vector3 { a, b, c }
    }

    pub fn origin() -> (r: Vector3)
        ensures
            r@ == (Vec3i { a: 0int, b: 0int, c: 0int }),
    {
        Vector3 { a: Fx(0), b: Fx(0), c: Fx(0) }
    }

    pub fn add(self, other: Vector3) -> (r: Vector3)
        ensures
            r@ == vadd(self@, other@),
    {
        Vector3 { a: self.a.add(other.a), b: self.b.add(other.b), c: self.c.add(other.c) }
    }

    /// Component-wise product; on colors this is attenuation.
    pub fn mul(self, rhs: Vector3) -> (r: Vector3)
        ensures
            r@ == vmul(self@, rhs@),
    {
        Vector3 { a: self.a.mul(rhs.a), b: self.b.mul(rhs.b), c: self.c.mul(rhs.c) }
    }

    pub fn scalar_mul(self, factor: Fx) -> (r: Vector3)
        ensures
            r@ == vscale(self@, factor@),
    {
        Vector3 { a: self.a.mul(factor), b: self.b.mul(factor), c: self.c.mul(factor) }
    }

    /// Component-wise division; a zero denominator yields the zero vector.
    pub fn scalar_div(self, denominator: Fx) -> (r: Vector3)
        ensures
            r@ == vdivs(self@, denominator@),
    {
        Vector3 {
            a: self.a.div(denominator),
            b: self.b.div(denominator),
            c: self.c.div(denominator),
        }
    }

    pub fn dot(u: &Vector3, v: &Vector3) -> (r: Fx)
        ensures
            r@ == vdot(u@, v@),
    {
        u.a.mul(v.a).add(u.b.mul(v.b)).add(u.c.mul(v.c))
    }

    pub fn cross(self, other: Vector3) -> (r: Vector3)
        ensures
            r@ == vcross(self@, other@),
    {
        Vector3 {
            a: self.b.mul(other.c).sub(self.c.mul(other.b)),
            b: self.c.mul(other.a).sub(self.a.mul(other.c)),
            c: self.a.mul(other.b).sub(self.b.mul(other.a)),
        }
    }

    pub fn len(self) -> (r: Fx)
        ensures
            r@ == vlen(self@),
    {
        Vector3::dot(&self, &self).sqrt()
    }

    /// The direction scaled to unit length; undefined directions (length
    /// zero) come back as the zero vector.
    pub fn unit(self) -> (r: Vector3)
        ensures
            r@ == vunit(self@),
    {
        let l = self.len();
        self.scalar_div(l)
    }

    /// Whether every component is too small for the grid to distinguish from
    /// zero; used to reject degenerate scatter directions.
    pub fn near_zero(self) -> (r: bool)
        ensures
            r == vnear_zero(self@),
    {
        self.a.0 == 0 && self.b.0 == 0 && self.c.0 == 0
    }

    /// Ideal specular reflection of `self` about `normal`; `self` should be
    /// unit length for the result to be meaningful.
    pub fn reflect(&self, normal: Vector3) -> (r: Vector3)
        ensures
            r@ == vreflect(self@, normal@),
    {
        let b: Point = normal.scalar_mul(Vector3::dot(self, &normal));
        let refl: Point = self.add(b.scalar_mul(Fx(2 * FX_ONE)));
        refl
    }

    /// A vector with each component drawn independently from `[min, max]`:
    /// each one is a unit sample scaled as `(max - min) * y + min`.
    pub fn random(rng: &mut RngSource, min: Fx, max: Fx) -> (r: Vector3)
        ensures
            forall|ch: int|
                #![trigger vcomp(r@, ch)]
                0 <= ch < 3 ==> exists|y: int|
                    0 <= y < SCALE && vcomp(r@, ch) == fx_add(
                        fx_mul(fx_sub(max@, min@), y),
                        min@,
                    ),
            fx_ok(min@) && fx_ok(max@) && min@ <= max@ ==> {
                &&& min@ <= r@.a <= max@
                &&& min@ <= r@.b <= max@
                &&& min@ <= r@.c <= max@
            },
    {
        let r = Vector3 {
            a: random_fx(rng, min, max),
            b: random_fx(rng, min, max),
            c: random_fx(rng, min, max),
        };
        proof {
            assert(vcomp(r@, 0) == r@.a && vcomp(r@, 1) == r@.b && vcomp(r@, 2) == r@.c);
        }
        r
    }

    /// Rejection sampling for a random scatter offset: draw uniform vectors
    /// in `[-1, 1]^3` until one lies inside the unit sphere. Attempts are
    /// bounded so that the sampler provably terminates; if every draw is
    /// rejected the origin, which lies inside the sphere, is returned.
    pub fn rand_in_unit_sphere(rng: &mut RngSource) -> (r: Point)
        ensures
            vin_unit_sphere(r@),
    {
        let mut attempts: u32 = 64;
        while attempts > 0
            decreases attempts,
        {
            let s: Point = Vector3::random(rng, Fx(-FX_ONE), Fx(FX_ONE));
            let l: Fx = s.len();
            if l.mul(l).0 < FX_ONE {
                return s;
            }
            attempts = attempts - 1;
        }
        proof {
            lemma_unit_sphere_origin();
        }
        Vector3::origin()
    }

    /// A random direction of unit length: an in-sphere sample scaled by its
    /// own length. Draws whose length underflows the grid are rejected; if
    /// every attempt does, a fixed axis direction, itself the normalization
    /// of an in-sphere sample, is returned.
    pub fn rand_unit_vec(rng: &mut RngSource) -> (r: Point)
        ensures
            exists|s: Vec3i| vin_unit_sphere(s) && vlen(s) > 0 && r@ == vunit(s),
    {
        let mut attempts: u32 = 64;
        while attempts > 0
            decreases attempts,
        {
            let s: Point = Vector3::rand_in_unit_sphere(rng);
            let l: Fx = s.len();
            if l.0 > 0 {
                return s.scalar_div(l);
            }
            attempts = attempts - 1;
        }
        proof {
            lemma_unit_fallback();
        }
        Vector3::new(Fx(FX_ONE), Fx(0), Fx(0))
    }

    /// A random in-sphere vector flipped, if needed, into the hemisphere of
    /// `normal`: the result never points against the normal.
    pub fn rand_in_hemisphere(rng: &mut RngSource, normal: Point) -> (r: Point)
        ensures
            vin_unit_sphere(r@),
            vdot(r@, normal@) >= 0,
            exists|s: Vec3i|
                vin_unit_sphere(s) && r@ == (if vdot(s, normal@) > 0 {
                    s
                } else {
                    vscale(s, -(FX_ONE as int))
                }),
    {
        let in_unit_sphere: Point = Vector3::rand_in_unit_sphere(rng);

        if Vector3::dot(&in_unit_sphere, &normal).0 > 0 {
            return in_unit_sphere;
        }

        proof {
            lemma_vdot_flip(in_unit_sphere@, normal@);
            lemma_vlen_flip(in_unit_sphere@);
        }
        in_unit_sphere.scalar_mul(Fx(-FX_ONE))
    }
}

/// The positive first axis is the normalization of the in-sphere sample
/// `(1/2, 0, 0)`.
proof fn lemma_unit_fallback()
    ensures
        exists|s: Vec3i|
            vin_unit_sphere(s) && vlen(s) > 0 && (Vec3i {
                a: FX_ONE as int,
                b: 0int,
                c: 0int,
            }) == vunit(s),
{
    let s = Vec3i { a: (FX_ONE as int) / 2, b: 0int, c: 0int };
    assert(fx_mul(32768, 32768) == 16384);
    assert(fx_mul(0, 0) == 0);
    assert(vdot(s, s) == 16384);
    assert(32768 * 32768 <= 16384 * 65536 < 32769 * 32769) by (nonlinear_arith);
    crate::fixed::lemma_isqrt_unique((16384 * 65536) as nat, 32768);
    assert(fx_sqrt(16384) == 32768);
    assert(vlen(s) == 32768);
    assert(fx_div((FX_ONE as int) / 2, 32768) == FX_ONE as int);
    assert(fx_div(0, 32768) == 0);
    assert(vunit(s) == (Vec3i { a: FX_ONE as int, b: 0int, c: 0int }));
    assert(vin_unit_sphere(s));
}

/// The zero vector lies inside the unit sphere.
proof fn lemma_unit_sphere_origin()
    ensures
        vin_unit_sphere(Vec3i { a: 0int, b: 0int, c: 0int }),
{
    let z = Vec3i { a: 0int, b: 0int, c: 0int };
    assert(fx_mul(0, 0) == 0);
    assert(fx_add(fx_add(0, 0), 0) == 0);
    assert(fx_sqrt(0) == 0);
    assert(vlen(z) == 0);
}

} // verus!
