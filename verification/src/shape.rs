//! The closed variant type over all shapes, so the world needs no dynamic
//! dispatch.

use vstd::prelude::*;
use crate::ray::{Ray, Rayi};
use crate::sphere::Sphere;
use crate::plane::Plane;
use crate::hittable::{Hittable, HitRec, RayCollision, hit_matches};

verus! {

pub enum Shape {
    Sphere(Sphere),
    Plane(Plane),
}

impl Shape {
    /// A shape whose material is usable.
    pub open spec fn wf(self) -> bool {
        match self {
            Shape::Sphere(o) => o.material.wf(),
            Shape::Plane(o) => o.material.wf(),
        }
    }

    pub fn sphere(obj: Sphere) -> (r: Shape)
        ensures
            r == Shape::Sphere(obj),
    {
        Shape::Sphere(obj)
    }

    pub fn plane(obj: Plane) -> (r: Shape)
        ensures
            r == Shape::Plane(obj),
    {
        Shape::Plane(obj)
    }
}

/// A hit reported by a well-formed shape carries a usable material.
pub proof fn lemma_shape_hit_wf(s: Shape, ray: Rayi)
    requires
        s.wf(),
    ensures
        s.hit_spec(ray) matches Some(h) ==> h.material.wf(),
{
}

impl Hittable for Shape {
    open spec fn hit_spec(&self, ray: Rayi) -> Option<HitRec> {
        match self {
            Shape::Sphere(o) => o.hit_spec(ray),
            Shape::Plane(o) => o.hit_spec(ray),
        }
    }

    fn hit(&self, ray: Ray) -> (r: Option<RayCollision>)
        ensures
            hit_matches(self.hit_spec(ray@), r),
    {
        match self {
            Shape::Sphere(o) => o.hit(ray),
            Shape::Plane(o) => o.hit(ray),
        }
    }
}

} // verus!
