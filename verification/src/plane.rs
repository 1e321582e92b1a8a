//! Unbounded planes, intersected by the ray-plane equation.

use vstd::prelude::*;
use crate::fixed::{Fx, fx_sub, fx_div, FX_MAX};
use crate::vector::{Vector3, Point, vdot};
use crate::ray::{Ray, Rayi};
use crate::material::Material;
use crate::hittable::{Hittable, HitRec, RayCollision, collision_spec, hit_matches};
use crate::sphere::T_MIN_ACNE;

verus! {

pub struct Plane {
    pub min: Point,
    pub max: Point,
    pub n: Point,
    pub material: Material,
    pub t_min: Fx,
    pub t_max: Fx,
}

impl Plane {
    /// The ray parameter at which a ray meets the plane:
    /// `(n . p0 - n . origin) / (n . direction)`, kept only inside the
    /// plane's range. A parallel ray's division yields zero, which the range
    /// check rejects.
    pub open spec fn hit_t(self, ray: Rayi) -> Option<int> {
        let t_num = fx_sub(vdot(self.min@, self.n@), vdot(ray.origin, self.n@));
        let t_den = vdot(ray.direction, self.n@);
        let t = fx_div(t_num, t_den);
        if t < self.t_min@ || t > self.t_max@ {
            None
        } else {
            Some(t)
        }
    }

    /// A plane with the default parameter range: hits nearer than the acne
    /// bound are ignored, and the far bound is the saturation limit.
    pub fn new(min: Point, max: Point, n: Point, material: Material) -> (r: Plane)
        ensures
            r.min == min,
            r.max == max,
            r.n == n,
            r.material == material,
            r.t_min@ == T_MIN_ACNE as int,
            r.t_max@ == FX_MAX as int,
    {
        let t_min: Fx = Fx(T_MIN_ACNE);
        let t_max: Fx = Fx(FX_MAX);

        Plane { min, max, n, material, t_min, t_max }
    }
}

impl Hittable for Plane {
    open spec fn hit_spec(&self, ray: Rayi) -> Option<HitRec> {
        match self.hit_t(ray) {
            None => None,
            Some(t) => Some(
                HitRec { col: collision_spec(ray, self.n@, t), material: self.material },
            ),
        }
    }

    fn hit(&self, ray: Ray) -> (r: Option<RayCollision>)
        ensures
            hit_matches(self.hit_spec(ray@), r),
    {
        let t_num: Fx = Vector3::dot(&self.min, &self.n).sub(Vector3::dot(&ray.origin, &self.n));
        let t_den: Fx = Vector3::dot(&ray.direction, &self.n);

        let t: Fx = t_num.div(t_den);

        if t.0 < self.t_min.0 || t.0 > self.t_max.0 {
            return None;
        }

        Some(RayCollision::new(ray, self.n, t, self.material.duplicate()))
    }
}

} // verus!
