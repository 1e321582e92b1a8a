//! Vector algebra, intersections and the nearest-hit aggregate, on exact
//! fixed-point values.

use raytracer::fixed::{Fx, FX_MAX, FX_ONE};
use raytracer::hittable::{Hittable, RayCollision, World};
use raytracer::material::Material;
use raytracer::plane::Plane;
use raytracer::ray::Ray;
use raytracer::rng::RngSource;
use raytracer::shape::Shape;
use raytracer::sphere::Sphere;
use raytracer::texture::Texture;
use raytracer::vector::{Color, Point, Vector3};

fn v(a: i64, b: i64, c: i64) -> Vector3 {
    Vector3::new(Fx(a * FX_ONE), Fx(b * FX_ONE), Fx(c * FX_ONE))
}

#[test]
fn vector_componentwise_ops() {
    let u = v(1, 2, 3);
    let w = v(4, 5, 6);
    assert_eq!(u.add(w), v(5, 7, 9));
    assert_eq!(u.mul(w), v(4, 10, 18));
    assert_eq!(u.scalar_mul(Fx(2 * FX_ONE)), v(2, 4, 6));
    assert_eq!(w.scalar_div(Fx(2 * FX_ONE)), Vector3::new(Fx(2 * FX_ONE), Fx(5 * FX_ONE / 2), Fx(3 * FX_ONE)));
}

#[test]
fn dot_cross_len_exact() {
    let u = v(1, 2, 3);
    let w = v(4, 5, 6);
    assert_eq!(Vector3::dot(&u, &w).0, 32 * FX_ONE);
    assert_eq!(u.cross(w), v(-3, 6, -3));
    assert_eq!(v(0, 3, 4).len().0, 5 * FX_ONE);
    assert_eq!(v(0, 3, 4).unit(), Vector3::new(Fx(0), Fx(39321), Fx(52428)));
}

#[test]
fn near_zero_is_exact_zero_on_the_grid() {
    assert!(Vector3::new(Fx(0), Fx(0), Fx(0)).near_zero());
    assert!(!Vector3::new(Fx(1), Fx(0), Fx(0)).near_zero());
}

#[test]
fn reflect_formula() {
    // v + 2 * dot(v, n) * n, with v = (1, -1, 0) and n = (0, 1, 0):
    // dot = -1, so the reflection is (1, -1, 0) + (0, -2, 0) = (1, -3, 0).
    let d = v(1, -1, 0);
    let n = v(0, 1, 0);
    assert_eq!(d.reflect(n), v(1, -3, 0));
}

#[test]
fn random_vector_bounds() {
    let mut rng = RngSource::from_seed(11);
    for _ in 0..50 {
        let s = Vector3::random(&mut rng, Fx(-FX_ONE), Fx(FX_ONE));
        assert!(-FX_ONE <= s.a.0 && s.a.0 <= FX_ONE);
        assert!(-FX_ONE <= s.b.0 && s.b.0 <= FX_ONE);
        assert!(-FX_ONE <= s.c.0 && s.c.0 <= FX_ONE);
    }
}

#[test]
fn rand_in_unit_sphere_stays_inside() {
    let mut rng = RngSource::from_seed(3);
    for _ in 0..50 {
        let s = Point::rand_in_unit_sphere(&mut rng);
        let l = s.len();
        assert!(l.mul(l).0 < FX_ONE);
    }
}

#[test]
fn rand_unit_vec_is_normalized() {
    let mut rng = RngSource::from_seed(17);
    for _ in 0..20 {
        let s = Point::rand_unit_vec(&mut rng);
        // unit length up to grid truncation
        assert!((s.len().0 - FX_ONE).abs() < 2000);
    }
}

#[test]
fn rand_in_hemisphere_never_points_against_normal() {
    let mut rng = RngSource::from_seed(5);
    let n = v(0, 1, 0);
    for _ in 0..50 {
        let s = Point::rand_in_hemisphere(&mut rng, n);
        assert!(Vector3::dot(&s, &n).0 >= 0);
    }
}

#[test]
fn ray_at_evaluates_parametrically() {
    let r = Ray::new(v(1, 0, 0), v(0, 0, -1));
    assert_eq!(r.at(Fx(3 * FX_ONE / 2)), Vector3::new(Fx(FX_ONE), Fx(0), Fx(-3 * FX_ONE / 2)));
}

fn metal_gray() -> Material {
    Material::Metal(Color::new(Fx(52428), Fx(52428), Fx(52428)))
}

/// A ray cast from outside a sphere straight at its center hits at
/// `|origin - center| - radius`, with the normal parallel to the offset
/// from the center.
#[test]
fn sphere_head_on_distance_and_normal() {
    let sphere = Sphere::new_pos_t(v(0, 0, -2), metal_gray(), Fx(FX_ONE / 2));
    let ray = Ray::new(v(0, 0, 0), v(0, 0, -1));
    let hit = sphere.hit(ray).expect("head-on ray must hit");
    // |origin - center| - r = 2 - 0.5 = 1.5, exactly on the grid
    assert_eq!(hit.distance.0, 3 * FX_ONE / 2);
    // normal = (hit_point - center) / r = (0, 0, 1)
    assert_eq!(hit.normal, v(0, 0, 1));
    assert!(hit.front_face);
    assert_eq!(hit.hit_point, Vector3::new(Fx(0), Fx(0), Fx(-3 * FX_ONE / 2)));
}

#[test]
fn sphere_miss_reports_none() {
    let sphere = Sphere::new_pos_t(v(0, 0, -2), metal_gray(), Fx(FX_ONE / 2));
    // a parallel ray offset by 2 units passes well clear of the sphere
    let ray = Ray::new(v(2, 0, 0), v(0, 0, -1));
    assert!(sphere.hit(ray).is_none());
}

#[test]
fn sphere_hit_behind_origin_rejected() {
    // the sphere sits behind the ray: the smaller root is negative, below
    // t_min, and the design never falls back to the larger root
    let sphere = Sphere::new_pos_t(v(0, 0, 2), metal_gray(), Fx(FX_ONE / 2));
    let ray = Ray::new(v(0, 0, 0), v(0, 0, -1));
    assert!(sphere.hit(ray).is_none());
}

#[test]
fn sphere_range_bounds_hits() {
    // same geometry as the head-on test, but the range excludes t = 1.5
    let tight = Sphere::new(v(0, 0, -2), Fx(FX_ONE / 2), metal_gray(), Fx(66), Fx(FX_ONE));
    let ray = Ray::new(v(0, 0, 0), v(0, 0, -1));
    assert!(tight.hit(ray).is_none());
}

#[test]
fn plane_hit_distance_and_flipped_normal() {
    let plane = Plane::new(v(0, 1, 0), v(0, 1, 0), v(0, 1, 0), metal_gray());
    // the ray travels along the plane normal, so the stored normal is
    // flipped to oppose it
    let ray = Ray::new(v(0, 0, 0), v(0, 1, 0));
    let hit = plane.hit(ray).expect("ray toward the plane must hit");
    assert_eq!(hit.distance.0, FX_ONE);
    assert_eq!(hit.normal, v(0, -1, 0));
    assert!(!hit.front_face);
}

#[test]
fn plane_parallel_ray_rejected() {
    let plane = Plane::new(v(0, 1, 0), v(0, 1, 0), v(0, 1, 0), metal_gray());
    let ray = Ray::new(v(0, 0, 0), v(1, 0, 0));
    assert!(plane.hit(ray).is_none());
}

#[test]
fn collision_flips_normal_and_derives_uv() {
    let ray = Ray::new(v(0, 0, 0), v(0, 0, -1));
    let col = RayCollision::new(ray, v(0, 0, 1), Fx(FX_ONE), metal_gray());
    assert!(col.front_face);
    assert_eq!(col.normal, v(0, 0, 1));
    // spherical mapping of the +z normal: u = atan2(1, 0) / 2pi = 0.25,
    // v = acos(0) / pi = 0.5, up to grid truncation
    assert_eq!(col.uv.a.0, 16384);
    assert_eq!(col.uv.b.0, 32768);
    assert_eq!(col.uv.c.0, 0);
}

#[test]
fn collision_uv_uses_unflipped_normal_on_back_face() {
    // the ray travels along the normal, so the stored normal is flipped,
    // but the uv mapping still reads the un-flipped +y normal:
    // u = atan2(0, 0) / 2pi = 0, v = acos(-1) / pi = 1
    let ray = Ray::new(v(0, 0, 0), v(0, 1, 0));
    let col = RayCollision::new(ray, v(0, 1, 0), Fx(FX_ONE), metal_gray());
    assert!(!col.front_face);
    assert_eq!(col.normal, v(0, -1, 0));
    assert_eq!(col.uv.a.0, 0);
    assert_eq!(col.uv.b.0, FX_ONE);
    assert_eq!(col.uv.c.0, 0);
}

/// The world returns the hit whose distance is the global minimum over all
/// shapes that report one, whatever the insertion order.
#[test]
fn world_hit_returns_global_minimum() {
    let near = Sphere::new_pos_t(v(0, 0, -2), Material::Metal(Color::new(Fx(FX_ONE), Fx(0), Fx(0))), Fx(FX_ONE / 2));
    let far = Sphere::new_pos_t(v(0, 0, -5), Material::Metal(Color::new(Fx(0), Fx(FX_ONE), Fx(0))), Fx(FX_ONE / 2));
    let ray = Ray::new(v(0, 0, 0), v(0, 0, -1));

    let mut world = World::new();
    world.insert(Shape::sphere(far));
    world.insert(Shape::sphere(near));
    let hit = world.hit(ray).expect("both spheres lie on the ray");
    assert_eq!(hit.distance.0, 3 * FX_ONE / 2);
    match hit.material {
        Material::Metal(albedo) => assert_eq!(albedo, Color::new(Fx(FX_ONE), Fx(0), Fx(0))),
        _ => panic!("nearest sphere is the red metal one"),
    }
}

#[test]
fn world_hit_tie_keeps_first_inserted() {
    let first = Sphere::new_pos_t(v(0, 0, -2), Material::Metal(Color::new(Fx(FX_ONE), Fx(0), Fx(0))), Fx(FX_ONE / 2));
    let second = Sphere::new_pos_t(v(0, 0, -2), Material::Metal(Color::new(Fx(0), Fx(FX_ONE), Fx(0))), Fx(FX_ONE / 2));
    let ray = Ray::new(v(0, 0, 0), v(0, 0, -1));

    let mut world = World::new();
    world.insert(Shape::sphere(first));
    world.insert(Shape::sphere(second));
    let hit = world.hit(ray).expect("hit expected");
    match hit.material {
        Material::Metal(albedo) => assert_eq!(albedo, Color::new(Fx(FX_ONE), Fx(0), Fx(0))),
        _ => panic!("tie must keep the first minimum encountered"),
    }
}

#[test]
fn world_miss_and_clear() {
    let mut world = World::new();
    assert!(world.hit(Ray::new(v(0, 0, 0), v(0, 0, -1))).is_none());
    world.insert(Shape::sphere(Sphere::new_pos_t(v(0, 0, -2), metal_gray(), Fx(FX_ONE / 2))));
    assert_eq!(world.objects.len(), 1);
    let cleared = world.clear();
    assert_eq!(cleared.objects.len(), 0);
}

#[test]
fn shape_dispatch_matches_inner_hit() {
    let sphere = Sphere::new_pos_t(v(0, 0, -2), metal_gray(), Fx(FX_ONE / 2));
    let shape = Shape::sphere(Sphere::new_pos_t(v(0, 0, -2), metal_gray(), Fx(FX_ONE / 2)));
    let ray = Ray::new(v(0, 0, 0), v(0, 0, -1));
    let a = sphere.hit(ray).unwrap();
    let b = shape.hit(ray).unwrap();
    assert_eq!(a.distance.0, b.distance.0);
    assert_eq!(a.normal, b.normal);
}

#[test]
fn world_mixes_spheres_and_planes() {
    // a floor plane below the ray and a sphere ahead: the sphere is nearer
    let floor = Plane::new(v(0, -3, 0), v(0, -3, 0), v(0, 1, 0), metal_gray());
    let ball = Sphere::new_pos_t(v(0, -4, 0), Material::Metal(Color::new(Fx(0), Fx(0), Fx(FX_ONE))), Fx(FX_ONE / 2));
    let mut world = World::new();
    world.insert(Shape::plane(floor));
    world.insert(Shape::sphere(ball));

    // straight down: the plane at distance 3 wins over the sphere at 3.5
    let down = Ray::new(v(0, 0, 0), v(0, -1, 0));
    let hit = world.hit(down).expect("both lie below");
    assert_eq!(hit.distance.0, 3 * FX_ONE);
    match hit.material {
        Material::Metal(albedo) => assert_eq!(albedo, Color::new(Fx(52428), Fx(52428), Fx(52428))),
        _ => panic!("the gray plane is nearer"),
    }
}

#[test]
fn texture_solid_and_image_lookup() {
    let red = Color::new(Fx(FX_ONE), Fx(0), Fx(0));
    let solid = Texture::from_color(red);
    assert_eq!(solid.get(&Fx(0), &Fx(0)), red);

    // a 2x2 grid: top row (p0, p1), bottom row (p2, p3)
    let p0 = Color::new(Fx(10), Fx(0), Fx(0));
    let p1 = Color::new(Fx(20), Fx(0), Fx(0));
    let p2 = Color::new(Fx(30), Fx(0), Fx(0));
    let p3 = Color::new(Fx(40), Fx(0), Fx(0));
    let img = Texture::from_pixels(2, 2, vec![p0, p1, p2, p3]);
    // v = 0 is the bottom of the surface, which is the last row
    assert_eq!(img.get(&Fx(0), &Fx(0)), p2);
    // v = 1 is the top row; u = 1 the right column
    assert_eq!(img.get(&Fx(FX_ONE), &Fx(FX_ONE)), p1);
    assert_eq!(img.get(&Fx(0), &Fx(FX_ONE)), p0);
    assert_eq!(img.get(&Fx(FX_ONE), &Fx(0)), p3);
}

#[test]
fn texture_bad_grid_degrades_to_black() {
    let black = Color::new(Fx(0), Fx(0), Fx(0));
    let t = Texture::from_pixels(2, 2, vec![Color::new(Fx(5), Fx(5), Fx(5))]);
    assert_eq!(t.get(&Fx(0), &Fx(0)), black);
    let z = Texture::from_pixels(0, 1, vec![]);
    assert_eq!(z.get(&Fx(0), &Fx(0)), black);
    // a channel outside [0, 1] also degrades the whole grid
    let hot = Texture::from_pixels(1, 1, vec![Color::new(Fx(2 * FX_ONE), Fx(0), Fx(0))]);
    assert_eq!(hot.get(&Fx(0), &Fx(0)), black);
    let neg = Texture::from_pixels(1, 1, vec![Color::new(Fx(0), Fx(-1), Fx(0))]);
    assert_eq!(neg.get(&Fx(0), &Fx(0)), black);
}

#[test]
fn infinity_stand_in_admits_every_distance() {
    // the far bound of the default range is the saturation limit, which no
    // computed ray parameter exceeds
    let sphere = Sphere::new_pos_t(v(0, 0, -1000), metal_gray(), Fx(FX_ONE));
    let ray = Ray::new(v(0, 0, 0), v(0, 0, -1));
    let hit = sphere.hit(ray).expect("distant sphere still hits");
    assert_eq!(hit.distance.0, 999 * FX_ONE);
    assert!(hit.distance.0 < FX_MAX);
}
