//! The intersection protocol: what a surface reports when a ray strikes it,
//! and the scene aggregate that finds the nearest strike.

use vstd::prelude::*;
use crate::fixed::{Fx, fx_mul, fx_div, FX_ONE};
use crate::vector::{Vector3, Point, Vec3i, vdot, vscale};
use crate::ray::{Ray, Rayi, ray_at};
use crate::material::{Material, mat_eq};
use crate::trig::{fx_atan2, fx_acos, fx_atan2_s, fx_acos_s, FX_PI, FX_TAU};
use crate::shape::Shape;

verus! {

/// Trait for renderable surfaces in the world.
pub trait Hittable {
    /// The mathematical outcome of intersecting a ray with this surface.
    spec fn hit_spec(&self, ray: Rayi) -> Option<HitRec>;

    /// The nearest valid intersection of the ray with this surface, if any.
    fn hit(&self, ray: Ray) -> (r: Option<RayCollision>)
        ensures
            hit_matches(self.hit_spec(ray@), r),
    ;
}

pub trait Collision {

}

/// Mathematical model of a collision record.
pub ghost struct ColSpec {
    pub hit_point: Vec3i,
    pub normal: Vec3i,
    pub distance: int,
    pub front_face: bool,
    pub uv: Vec3i,
}

/// What a shape's intersection yields: the collision geometry and the
/// shape's material.
pub ghost struct HitRec {
    pub col: ColSpec,
    pub material: Material,
}

/// Returned when an object is hit by a ray.
pub struct RayCollision {
    /// The point of collision.
    pub hit_point: Point,
    /// The surface normal at the hit, flipped to oppose the incoming ray.
    pub normal: Point,
    /// The ray parameter of the collision.
    pub distance: Fx,
    /// Whether the geometric normal already opposed the ray before flipping.
    pub front_face: bool,
    /// Spherical surface coordinates for texture lookup.
    pub uv: Point,
    /// The material of the surface that was hit.
    pub material: Material,
}

pub open spec fn col_of(c: RayCollision) -> ColSpec {
    ColSpec {
        hit_point: c.hit_point@,
        normal: c.normal@,
        distance: c.distance@,
        front_face: c.front_face,
        uv: c.uv@,
    }
}

/// An executable collision agrees with a modeled one: same geometry and a
/// structurally equal material.
pub open spec fn hit_matches(h: Option<HitRec>, r: Option<RayCollision>) -> bool {
    match h {
        None => r is None,
        Some(rec) => match r {
            Some(c) => col_of(c) == rec.col && mat_eq(c.material, rec.material),
            None => false,
        },
    }
}

/// The collision record built from a raw surface normal: the normal is
/// flipped to oppose the ray, and the spherical angles of the un-flipped
/// normal give the texture coordinates.
pub open spec fn collision_spec(ray: Rayi, normal: Vec3i, distance: int) -> ColSpec {
    let is_outward = vdot(ray.direction, normal) < 0;
    let outward = if is_outward {
        normal
    } else {
        vscale(normal, -(FX_ONE as int))
    };
    let u = fx_div(fx_atan2_s(normal.c, fx_mul(-(FX_ONE as int), normal.a)), FX_TAU as int);
    let v = fx_div(fx_acos_s(fx_mul(-(FX_ONE as int), normal.b)), FX_PI as int);
    ColSpec {
        hit_point: ray_at(ray, distance),
        normal: outward,
        distance: distance,
        front_face: is_outward,
        uv: Vec3i { a: u, b: v, c: 0 },
    }
}

impl RayCollision {
    pub fn new(ray: Ray, normal: Point, distance: Fx, material: Material) -> (r: RayCollision)
        ensures
            col_of(r) == collision_spec(ray@, normal@, distance@),
            r.material == material,
    {
        let is_outward: bool = Vector3::dot(&ray.direction, &normal).0 < 0;
        let outward_normal: Point = if is_outward {
            normal
        } else {
            normal.scalar_mul(Fx(-FX_ONE))
        };

        let u: Fx = fx_atan2(normal.c, Fx(-FX_ONE).mul(normal.a)).div(Fx(FX_TAU));
        let v: Fx = fx_acos(Fx(-FX_ONE).mul(normal.b)).div(Fx(FX_PI));

        RayCollision {
            hit_point: ray.at(distance),
            normal: outward_normal,
            distance,
            front_face: is_outward,
            material,
            uv: Point::new(u, v, Fx(0)),
        }
    }
}

/// The world of hittables: a flat, ordered list of shapes.
pub struct World {
    pub objects: Vec<Shape>,
}

/// Keep the nearer of the hit so far and a new candidate; a tie keeps the
/// earlier one.
pub open spec fn nearer_hit(best: Option<HitRec>, cur: Option<HitRec>) -> Option<HitRec> {
    match cur {
        None => best,
        Some(n) => match best {
            None => Some(n),
            Some(b) => if n.col.distance < b.col.distance {
                Some(n)
            } else {
                Some(b)
            },
        },
    }
}

/// The nearest hit over a sequence of shapes, scanned left to right: the
/// first shape attaining the minimal distance wins.
pub open spec fn world_hit_spec(shapes: Seq<Shape>, ray: Rayi) -> Option<HitRec>
    decreases shapes.len(),
{
    if shapes.len() == 0 {
        None
    } else {
        nearer_hit(world_hit_spec(shapes.drop_last(), ray), shapes.last().hit_spec(ray))
    }
}

impl World {
    /// All shapes carry usable materials.
    pub open spec fn wf(self) -> bool {
        forall|i: int|
            0 <= i < self.objects@.len() ==> (#[trigger] self.objects@[i]).wf()
    }

    pub fn new() -> (r: World)
        ensures
            r.objects@.len() == 0,
            r.wf(),
    {
        World { objects: Vec::new() }
    }

    pub fn insert(&mut self, object: Shape)
        ensures
            final(self).objects@ == old(self).objects@.push(object),
            old(self).wf() && object.wf() ==> final(self).wf(),
    {
        self.objects.push(object);
    }

    pub fn clear(self) -> (r: World)
        ensures
            r.objects@.len() == 0,
            r.wf(),
    {
        World { objects: Vec::new() }
    }
}

/// In a well-formed world, whatever the nearest-hit scan returns carries a
/// usable material.
pub proof fn lemma_world_hit_wf(shapes: Seq<Shape>, ray: Rayi)
    requires
        forall|i: int| 0 <= i < shapes.len() ==> (#[trigger] shapes[i]).wf(),
    ensures
        world_hit_spec(shapes, ray) matches Some(h) ==> h.material.wf(),
    decreases shapes.len(),
{
    if shapes.len() > 0 {
        lemma_world_hit_wf(shapes.drop_last(), ray);
        assert(shapes.last() == shapes[shapes.len() - 1]);
        crate::shape::lemma_shape_hit_wf(shapes.last(), ray);
    }
}

/// The law of the aggregate: the nearest-hit scan returns the hit of some
/// shape, and its distance is the minimum over every shape that reports a
/// hit; if it returns nothing, no shape reports a hit.
#[verifier::rlimit(100)]
#[verifier::spinoff_prover]
pub proof fn lemma_world_hit_nearest(shapes: Seq<Shape>, ray: Rayi)
    ensures
        world_hit_spec(shapes, ray) matches Some(h) ==> {
            &&& exists|i: int|
                0 <= i < shapes.len() && (#[trigger] shapes[i]).hit_spec(ray) == Some(h)
            &&& forall|i: int|
                0 <= i < shapes.len() ==> ((#[trigger] shapes[i]).hit_spec(ray) matches Some(g)
                    ==> h.col.distance <= g.col.distance)
        },
        world_hit_spec(shapes, ray) is None ==> forall|i: int|
            0 <= i < shapes.len() ==> (#[trigger] shapes[i]).hit_spec(ray) is None,
    decreases shapes.len(),
{
    if shapes.len() > 0 {
        lemma_world_hit_nearest(shapes.drop_last(), ray);
        let prefix = shapes.drop_last();
        assert(forall|i: int| 0 <= i < prefix.len() ==> prefix[i] == shapes[i]);
        assert(shapes.last() == shapes[shapes.len() - 1]);
        match world_hit_spec(shapes, ray) {
            Some(h) => {
                match world_hit_spec(prefix, ray) {
                    Some(b) => {
                        match shapes.last().hit_spec(ray) {
                            Some(n) => {
                                if n.col.distance < b.col.distance {
                                    assert(shapes[shapes.len() - 1].hit_spec(ray) == Some(h));
                                } else {
                                    let j = choose|j: int|
                                        0 <= j < prefix.len() && (#[trigger] prefix[j]).hit_spec(
                                            ray,
                                        ) == Some(b);
                                    assert(shapes[j].hit_spec(ray) == Some(h));
                                }
                            },
                            None => {
                                let j = choose|j: int|
                                    0 <= j < prefix.len() && (#[trigger] prefix[j]).hit_spec(ray)
                                        == Some(b);
                                assert(shapes[j].hit_spec(ray) == Some(h));
                            },
                        }
                    },
                    None => {
                        assert(shapes[shapes.len() - 1].hit_spec(ray) == Some(h));
                    },
                }
            },
            None => {},
        }
    }
}

impl Hittable for World {
    open spec fn hit_spec(&self, ray: Rayi) -> Option<HitRec> {
        world_hit_spec(self.objects@, ray)
    }

    /// Test every shape and keep the collision with the smallest distance;
    /// the first shape attaining the minimum wins a tie.
    fn hit(&self, ray: Ray) -> (r: Option<RayCollision>)
        ensures
            hit_matches(self.hit_spec(ray@), r),
    {
        let mut best: Option<RayCollision> = None;
        let mut i: usize = 0;
        while i < self.objects.len()
            invariant
                i <= self.objects.len(),
                hit_matches(world_hit_spec(self.objects@.take(i as int), ray@), best),
            decreases self.objects.len() - i,
        {
            let cur: Option<RayCollision> = self.objects[i].hit(ray);
            proof {
                assert(self.objects@.take(i as int + 1).drop_last() =~= self.objects@.take(
                    i as int,
                ));
                assert(self.objects@.take(i as int + 1).last() == self.objects@[i as int]);
            }
            match cur {
                Some(c) => {
                    match &best {
                        Some(b) => {
                            if c.distance.0 < b.distance.0 {
                                best = Some(c);
                            }
                        },
                        None => {
                            best = Some(c);
                        },
                    }
                },
                None => {},
            }
            i = i + 1;
        }
        proof {
            assert(self.objects@.take(self.objects@.len() as int) =~= self.objects@);
        }
        best
    }
}

} // verus!
