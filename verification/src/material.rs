//! The scattering model: what happens to a ray when it strikes a surface.
//!
//! A Lambertian surface scatters diffusely around the normal, with a random
//! in-sphere offset and a fallback to the bare normal when the offset cancels
//! it; a metal surface reflects the unit incoming direction, flipped into the
//! normal's hemisphere if needed. Both always report a valid scatter.

use vstd::prelude::*;
use crate::fixed::{Fx, FX_ONE, lemma_fx_clamp_ok};
use crate::vector::{
    Vector3, Point, Color, Vec3i, vdot, vadd, vscale, vreflect, vunit, vnear_zero,
    vin_unit_sphere, vec_ok, lemma_vdot_flip,
};
use crate::ray::Ray;
use crate::hittable::{RayCollision, ColSpec, col_of};
use crate::texture::{Texture, tex_eq, tex_get_s, lemma_tex_eq_get};
use crate::rng::RngSource;

verus! {

pub enum Material {
    Metal(Color),
    Lambertian(Texture),
}

/// A scattered ray, the color attenuation it carries, and whether the
/// scatter is valid.
pub struct ScatterResult {
    pub ray: Ray,
    pub attenuation: Color,
    pub normal_matches: bool,
}

/// Structural equality of materials over their models.
pub open spec fn mat_eq(m1: Material, m2: Material) -> bool {
    match m1 {
        Material::Metal(a1) => m2 matches Material::Metal(a2) && a1 == a2,
        Material::Lambertian(t1) => m2 matches Material::Lambertian(t2) && tex_eq(t1, t2),
    }
}

/// The color attenuation a material applies to a collision: a metal's
/// albedo, or the texture sampled at the collision's surface coordinates.
pub open spec fn attenuation_s(m: Material, col: ColSpec) -> Vec3i {
    match m {
        Material::Metal(albedo) => albedo@,
        Material::Lambertian(texture) => tex_get_s(texture, col.uv.a, col.uv.b),
    }
}

/// The diffuse scatter direction: the normal plus the random offset, or the
/// bare normal when their sum degenerates to zero.
pub open spec fn lambertian_dir_s(normal: Vec3i, sample: Vec3i) -> Vec3i {
    let d = vadd(normal, sample);
    if vnear_zero(d) {
        normal
    } else {
        d
    }
}

/// The specular scatter direction: the reflection of the unit incoming
/// direction, negated if it points into the surface.
pub open spec fn metal_dir_s(dir_in: Vec3i, normal: Vec3i) -> Vec3i {
    let refl = vreflect(vunit(dir_in), normal);
    if vdot(refl, normal) > 0 {
        refl
    } else {
        vscale(refl, -(FX_ONE as int))
    }
}

/// Structurally equal materials attenuate a collision identically.
pub proof fn lemma_attenuation_mat_eq(m1: Material, m2: Material, col: ColSpec)
    requires
        mat_eq(m1, m2),
    ensures
        attenuation_s(m1, col) == attenuation_s(m2, col),
{
    match m1 {
        Material::Metal(_) => {},
        Material::Lambertian(t1) => {
            lemma_tex_eq_get(t1, m2->Lambertian_0, col.uv.a, col.uv.b);
        },
    }
}

impl Material {
    /// A usable material: any metal, or a Lambertian with a usable texture.
    pub open spec fn wf(self) -> bool {
        match self {
            Material::Metal(_) => true,
            Material::Lambertian(t) => t.wf(),
        }
    }

    /// A structurally equal copy of the material.
    pub fn duplicate(&self) -> (r: Material)
        ensures
            mat_eq(r, *self),
    {
        match self {
            Material::Metal(albedo) => Material::Metal(*albedo),
            Material::Lambertian(texture) => Material::Lambertian(texture.duplicate()),
        }
    }

    /// Scatter an incoming ray at a collision, according to the collision's
    /// material. The scatter is always valid; it starts at the hit point,
    /// carries the material's attenuation, and its direction follows the
    /// material's model: exactly the reflection for metal (never pointing
    /// against the normal), and the normal plus some in-sphere offset for
    /// Lambertian.
    pub fn scatter(r_in: Ray, collision: &RayCollision, rng: &mut RngSource) -> (r: ScatterResult)
        requires
            collision.material.wf(),
        ensures
            r.normal_matches == true,
            r.ray.origin@ == collision.hit_point@,
            r.attenuation@ == attenuation_s(collision.material, col_of(*collision)),
            collision.material matches Material::Metal(_) ==> r.ray.direction@ == metal_dir_s(
                r_in.direction@,
                collision.normal@,
            ) && vdot(r.ray.direction@, collision.normal@) >= 0,
            collision.material matches Material::Lambertian(_) ==> exists|s: Vec3i|
                vin_unit_sphere(s) && r.ray.direction@ == lambertian_dir_s(collision.normal@, s),
    {
        match &collision.material {
            Material::Metal(albedo) => Material::metal_scatter(*albedo, r_in, collision),
            Material::Lambertian(texture) => Material::lambertian_scatter(texture, collision, rng),
        }
    }

    /// The diffuse scatter direction for a given offset; public so that the
    /// degenerate-offset fallback is checkable on chosen offsets.
    pub fn lambertian_dir(normal: Point, sample: Point) -> (r: Point)
        ensures
            r@ == lambertian_dir_s(normal@, sample@),
            vnear_zero(vadd(normal@, sample@)) ==> r@ == normal@,
    {
        let d: Point = normal.add(sample);
        if d.near_zero() {
            normal
        } else {
            d
        }
    }

    fn lambertian_scatter(texture: &Texture, collision: &RayCollision, rng: &mut RngSource) -> (r:
        ScatterResult)
        requires
            texture.wf(),
        ensures
            r.normal_matches == true,
            r.ray.origin@ == collision.hit_point@,
            r.attenuation@ == tex_get_s(*texture, collision.uv@.a, collision.uv@.b),
            exists|s: Vec3i|
                vin_unit_sphere(s) && r.ray.direction@ == lambertian_dir_s(collision.normal@, s),
    {
        let sample: Point = Vector3::rand_in_unit_sphere(rng);
        let scatter_dir: Point = Material::lambertian_dir(collision.normal, sample);

        let scattered: Ray = Ray::new(collision.hit_point, scatter_dir);

        let attenuation: Color = texture.get(&collision.uv.a, &collision.uv.b);

        proof {
            assert(vin_unit_sphere(sample@) && scatter_dir@ == lambertian_dir_s(
                collision.normal@,
                sample@,
            ));
        }
        ScatterResult { ray: scattered, attenuation, normal_matches: true }
    }

    fn metal_scatter(albedo: Color, r_in: Ray, collision: &RayCollision) -> (r: ScatterResult)
        ensures
            r.normal_matches == true,
            r.ray.origin@ == collision.hit_point@,
            r.attenuation@ == albedo@,
            r.ray.direction@ == metal_dir_s(r_in.direction@, collision.normal@),
            vdot(r.ray.direction@, collision.normal@) >= 0,
    {
        let mut reflection: Point = r_in.direction.unit().reflect(collision.normal);
        let norm_matches_reflection: bool = Vector3::dot(&reflection, &collision.normal).0 > 0;

        if !norm_matches_reflection {
            proof {
                lemma_reflect_ok(reflection@);
                lemma_vdot_flip(reflection@, collision.normal@);
                lemma_fx_clamp_ok(vdot(reflection@, collision.normal@));
            }
            reflection = reflection.scalar_mul(Fx(-FX_ONE));
        }

        let scattered: Ray = Ray::new(collision.hit_point, reflection);

        ScatterResult { ray: scattered, attenuation: albedo, normal_matches: true }
    }
}

/// Every component a vector operation produces lies in the saturation range.
proof fn lemma_reflect_ok(v: Vec3i)
    requires
        exists|u: Vec3i, w: Vec3i| v == vadd(u, w),
    ensures
        vec_ok(v),
{
    let (u, w): (Vec3i, Vec3i) = choose|u: Vec3i, w: Vec3i| v == vadd(u, w);
    lemma_fx_clamp_ok(u.a + w.a);
    lemma_fx_clamp_ok(u.b + w.b);
    lemma_fx_clamp_ok(u.c + w.c);
}

} // verus!
