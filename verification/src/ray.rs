//! Rays: an origin and a direction, with the parametric evaluation
//! `origin + t * direction`, and the recursive path integrator that turns a
//! ray into a color.

use vstd::prelude::*;
use crate::fixed::{Fx, fx_add, fx_mul, FX_ONE};
use crate::vector::{Point, Color, Vec3i, vadd, vscale, vmul, vin_unit_sphere, lemma_vmul_zero};
use crate::math::{vlerp, lerp_vec};
use crate::hittable::{World, RayCollision, Hittable, HitRec, world_hit_spec, col_of};
use crate::material::{Material, ScatterResult, attenuation_s, metal_dir_s, lambertian_dir_s};
use crate::shape::Shape;
use crate::rng::RngSource;

verus! {

/// Mathematical model of a ray.
pub ghost struct Rayi {
    pub origin: Vec3i,
    pub direction: Vec3i,
}

#[derive(Clone, Copy, Debug)]
pub struct Ray {
    pub origin: Point,
    pub direction: Point,
}

impl View for Ray {
    type V = Rayi;

    open spec fn view(&self) -> Rayi {
        Rayi { origin: self.origin@, direction: self.direction@ }
    }
}

/// The point a ray reaches at parameter `t`.
pub open spec fn ray_at(r: Rayi, t: int) -> Vec3i {
    vadd(r.origin, vscale(r.direction, t))
}

/// The sky gradient a missing ray returns: white blended toward blue by the
/// vertical component of the ray direction.
pub open spec fn sky_color_s(r: Rayi) -> Vec3i {
    let t = fx_mul((FX_ONE as int) / 2, fx_add(r.direction.b, FX_ONE as int));
    vlerp(
        Vec3i { a: FX_ONE as int, b: FX_ONE as int, c: FX_ONE as int },
        Vec3i { a: (FX_ONE as int) / 2, b: 45875, c: FX_ONE as int },
        t,
    )
}

/// What one scatter may produce at a hit: a ray from the hit point whose
/// direction follows the hit material's model.
pub open spec fn scatter_ray_ok(hit: HitRec, ray_in: Rayi, scat: Rayi) -> bool {
    &&& scat.origin == hit.col.hit_point
    &&& (hit.material matches Material::Metal(_) ==> scat.direction == metal_dir_s(
        ray_in.direction,
        hit.col.normal,
    ))
    &&& (hit.material matches Material::Lambertian(_) ==> exists|s: Vec3i|
        vin_unit_sphere(s) && scat.direction == lambertian_dir_s(hit.col.normal, s))
}

/// The possible outcomes of coloring a ray with a given bounce budget:
/// black once the budget is exhausted; the sky gradient on a miss; on a
/// hit, the material's attenuation times a possible outcome, one bounce
/// shallower, of a ray the material may scatter.
pub open spec fn ray_color_post(objects: Seq<Shape>, ray: Rayi, depth: int, col: Vec3i) -> bool
    decreases depth,
{
    if depth <= 0 {
        col == (Vec3i { a: 0int, b: 0int, c: 0int })
    } else {
        match world_hit_spec(objects, ray) {
            None => col == sky_color_s(ray),
            Some(h) => exists|scat: Rayi, sub: Vec3i|
                {
                    &&& scatter_ray_ok(h, ray, scat)
                    &&& ray_color_post(objects, scat, depth - 1, sub)
                    &&& col == vmul(attenuation_s(h.material, h.col), sub)
                },
        }
    }
}

/// The law of the last bounce: with a budget of one, a ray that hits
/// anything comes back black, since the scattered ray's own budget is
/// exhausted and the attenuation multiplies zero.
pub proof fn lemma_depth_one_hit_black(objects: Seq<Shape>, ray: Rayi, col: Vec3i)
    requires
        ray_color_post(objects, ray, 1, col),
        world_hit_spec(objects, ray) is Some,
    ensures
        col == (Vec3i { a: 0int, b: 0int, c: 0int }),
{
    let h = world_hit_spec(objects, ray)->0;
    // the depth is written `1 - 1` so the body is the definition's own
    // unfolding at a budget of one
    let (scat, sub): (Rayi, Vec3i) = choose|scat: Rayi, sub: Vec3i|
        {
            &&& scatter_ray_ok(h, ray, scat)
            &&& ray_color_post(objects, scat, 1 - 1, sub)
            &&& col == vmul(attenuation_s(h.material, h.col), sub)
        };
    assert(sub == (Vec3i { a: 0int, b: 0int, c: 0int }));
    lemma_vmul_zero(attenuation_s(h.material, h.col));
}

impl Ray {
    pub fn new(origin: Point, direction: Point) -> (r: Ray)
        ensures
            r@ == (Rayi { origin: origin@, direction: direction@ }),
    {
        Ray { origin, direction }
    }

    pub fn at(self, t: Fx) -> (r: Point)
        ensures
            r@ == ray_at(self@, t@),
    {
        self.origin.add(self.direction.scalar_mul(t))
    }

    /// The color carried back along a ray: black once the bounce budget is
    /// exhausted, the sky gradient on a miss, and otherwise the scattered
    /// ray's color attenuated by the surface.
    ///
    /// The result is a possible outcome in the sense of `ray_color_post`:
    /// the two deterministic branches are pinned exactly, and on a hit the
    /// factor beside the attenuation is itself a possible outcome, one
    /// bounce shallower, of a ray the material may scatter — only the random
    /// scatter offset is left open.
    pub fn ray_color(self, world: &World, depth: i32, rng: &mut RngSource) -> (r: Color)
        requires
            world.wf(),
        ensures
            ray_color_post(world.objects@, self@, depth as int, r@),
            depth <= 0 ==> r@ == (Vec3i { a: 0int, b: 0int, c: 0int }),
            depth > 0 && world_hit_spec(world.objects@, self@) is None ==> r@ == sky_color_s(
                self@,
            ),
        decreases depth,
    {
        if depth <= 0 {
            return Color::new(Fx(0), Fx(0), Fx(0));
        }

        let collision_result: Option<RayCollision> = world.hit(self);

        match collision_result {
            Some(c) => {
                proof {
                    crate::hittable::lemma_world_hit_wf(world.objects@, self@);
                }
                let scatter: ScatterResult = Material::scatter(self, &c, rng);

                if !scatter.normal_matches {
                    return Color::new(Fx(0), Fx(0), Fx(0));
                }

                let sub: Color = scatter.ray.ray_color(world, depth - 1, rng);
                let out: Color = scatter.attenuation.mul(sub);
                proof {
                    let h = world_hit_spec(world.objects@, self@)->0;
                    crate::material::lemma_attenuation_mat_eq(
                        c.material,
                        h.material,
                        col_of(c),
                    );
                    assert(scatter_ray_ok(h, self@, scatter.ray@));
                    assert(ray_color_post(world.objects@, scatter.ray@, depth as int - 1, sub@));
                    assert(out@ == vmul(attenuation_s(h.material, h.col), sub@));
                    assert(ray_color_post(world.objects@, self@, depth as int, out@));
                }
                out
            },
            None => {
                let t: Fx = Fx(FX_ONE / 2).mul(self.direction.b.add(Fx(FX_ONE)));

                let white: Color = Color::new(Fx(FX_ONE), Fx(FX_ONE), Fx(FX_ONE));
                let blue: Color = Color::new(Fx(FX_ONE / 2), Fx(45875), Fx(FX_ONE));

                lerp_vec(white, blue, t)
            },
        }
    }
}

} // verus!
