//! Spheres, intersected by the quadratic formula in its half-b form.

use vstd::prelude::*;
use crate::fixed::{Fx, fx_sub, fx_mul, fx_div, fx_neg, fx_sqrt, FX_ONE, FX_MAX};
use crate::vector::{Vector3, Point, Vec3i, vadd, vscale, vdivs, vdot};
use crate::ray::{Ray, Rayi, ray_at};
use crate::material::Material;
use crate::hittable::{Hittable, HitRec, RayCollision, collision_spec, hit_matches};

verus! {

/// Hits closer than this are ignored by default, to suppress
/// self-intersection acne; about one thousandth on the fixed-point grid.
pub const T_MIN_ACNE: i64 = 66;

pub struct Sphere {
    pub center: Point,
    pub radius: Fx,
    pub material: Material,
    pub t_min: Fx,
    pub t_max: Fx,
}

impl Sphere {
    /// The ray parameter at which a ray first meets the sphere, if the
    /// smaller quadratic root is real and lies within the sphere's range.
    /// The larger root is deliberately never consulted, so a ray starting
    /// inside the sphere reports no hit.
    pub open spec fn hit_t(self, ray: Rayi) -> Option<int> {
        let o_min_c = vadd(ray.origin, vscale(self.center@, -(FX_ONE as int)));
        let a = vdot(ray.direction, ray.direction);
        let half_b = vdot(ray.direction, o_min_c);
        let c = fx_sub(vdot(o_min_c, o_min_c), fx_mul(self.radius@, self.radius@));
        let disc = fx_sub(fx_mul(half_b, half_b), fx_mul(a, c));
        if disc < 0 {
            None
        } else {
            let t = fx_div(fx_sub(fx_neg(half_b), fx_sqrt(disc)), a);
            if t < self.t_min@ || t > self.t_max@ {
                None
            } else {
                Some(t)
            }
        }
    }

    /// The outward geometric normal at the hit point: the offset from the
    /// center scaled down by the radius.
    pub open spec fn normal_at(self, ray: Rayi, t: int) -> Vec3i {
        vdivs(vadd(ray_at(ray, t), vscale(self.center@, -(FX_ONE as int))), self.radius@)
    }

    pub fn new(center: Point, radius: Fx, material: Material, t_min: Fx, t_max: Fx) -> (r: Sphere)
        ensures
            r.center == center,
            r.radius == radius,
            r.material == material,
            r.t_min == t_min,
            r.t_max == t_max,
    {
        Sphere { center, radius, material, t_min, t_max }
    }

    /// A sphere with the default parameter range: hits nearer than the acne
    /// bound are ignored, and the far bound is the saturation limit, which
    /// no ray parameter can exceed.
    pub fn new_pos_t(center: Point, material: Material, radius: Fx) -> (r: Sphere)
        ensures
            r.center == center,
            r.radius == radius,
            r.material == material,
            r.t_min@ == T_MIN_ACNE as int,
            r.t_max@ == FX_MAX as int,
    {
        let t_min: Fx = Fx(T_MIN_ACNE);
        let t_max: Fx = Fx(FX_MAX);

        Sphere { center, radius, material, t_min, t_max }
    }
}

/// The law of the sphere normal: at a front-face hit, the reported normal is
/// exactly the offset from the center to the hit point, scaled down by the
/// radius — the grid form of a unit vector parallel to `hit_point - center`.
pub proof fn lemma_sphere_hit_normal(s: Sphere, ray: Rayi, h: HitRec)
    requires
        s.hit_spec(ray) == Some(h),
        h.col.front_face,
    ensures
        h.col.normal == vdivs(
            vadd(h.col.hit_point, vscale(s.center@, -(FX_ONE as int))),
            s.radius@,
        ),
        h.col.hit_point == ray_at(ray, h.col.distance),
{
    let t = s.hit_t(ray)->0;
    assert(s.hit_spec(ray) == Some(
        HitRec { col: collision_spec(ray, s.normal_at(ray, t), t), material: s.material },
    ));
}

impl Hittable for Sphere {
    open spec fn hit_spec(&self, ray: Rayi) -> Option<HitRec> {
        match self.hit_t(ray) {
            None => None,
            Some(t) => Some(
                HitRec {
                    col: collision_spec(ray, self.normal_at(ray, t), t),
                    material: self.material,
                },
            ),
        }
    }

    fn hit(&self, ray: Ray) -> (r: Option<RayCollision>)
        ensures
            hit_matches(self.hit_spec(ray@), r),
    {
        let o_min_c: Point = ray.origin.add(self.center.scalar_mul(Fx(-FX_ONE)));

        let a: Fx = Vector3::dot(&ray.direction, &ray.direction);
        let half_b: Fx = Vector3::dot(&ray.direction, &o_min_c);
        let c: Fx = Vector3::dot(&o_min_c, &o_min_c).sub(self.radius.mul(self.radius));

        let discriminant: Fx = half_b.mul(half_b).sub(a.mul(c));
        if discriminant.0 < 0 {
            return None;
        }

        let t_root: Fx = half_b.neg().sub(discriminant.sqrt()).div(a);
        if t_root.0 < self.t_min.0 || t_root.0 > self.t_max.0 {
            return None;
        }

        let norm: Point = ray.at(t_root).add(self.center.scalar_mul(Fx(-FX_ONE))).scalar_div(
            self.radius,
        );

        Some(RayCollision::new(ray, norm, t_root, self.material.duplicate()))
    }
}

} // verus!
