//! The path integrator, the scatter model and the camera pipeline.

use raytracer::camera::{Camera, CHANNEL_MAX};
use raytracer::fixed::{Fx, FX_ONE};
use raytracer::hittable::{Hittable, World};
use raytracer::image::{Image, RenderObject};
use raytracer::material::Material;
use raytracer::ray::Ray;
use raytracer::rng::RngSource;
use raytracer::shape::Shape;
use raytracer::sphere::Sphere;
use raytracer::texture::Texture;
use raytracer::vector::{Color, Vector3};

fn v(a: i64, b: i64, c: i64) -> Vector3 {
    Vector3::new(Fx(a * FX_ONE), Fx(b * FX_ONE), Fx(c * FX_ONE))
}

fn black() -> Color {
    Color::new(Fx(0), Fx(0), Fx(0))
}

/// Exhausted depth returns black, whatever the scene holds.
#[test]
fn ray_color_depth_zero_is_black() {
    let mut rng = RngSource::from_seed(1);
    let mut world = World::new();
    world.insert(Shape::sphere(Sphere::new_pos_t(
        v(0, 0, -1),
        Material::Metal(Color::new(Fx(FX_ONE), Fx(FX_ONE), Fx(FX_ONE))),
        Fx(FX_ONE / 2),
    )));
    let ray = Ray::new(v(0, 0, 0), v(0, 0, -1));
    assert_eq!(ray.ray_color(&world, 0, &mut rng), black());
    assert_eq!(ray.ray_color(&world, -3, &mut rng), black());
}

/// A ray that misses everything returns the sky gradient, for any positive
/// depth: the miss path never consumes the budget.
#[test]
fn ray_color_miss_is_sky_gradient() {
    let mut rng = RngSource::from_seed(1);
    let world = World::new();
    let ray = Ray::new(v(0, 0, 0), v(0, 0, -1));
    // t = 0.5 * (0 + 1) = 0.5: halfway between white and sky blue
    let expected = Color::new(Fx(49152), Fx(55705), Fx(FX_ONE));
    assert_eq!(ray.ray_color(&world, 1, &mut rng), expected);
    assert_eq!(ray.ray_color(&world, 20, &mut rng), expected);
    assert_eq!(ray.ray_color(&world, 50, &mut rng), expected);
}

/// The Lambertian fallback: a sample that cancels the normal yields the
/// normal itself, never a zero-length direction.
#[test]
fn lambertian_degenerate_sample_falls_back_to_normal() {
    let n = v(0, 0, 1);
    let cancel = v(0, 0, -1);
    assert_eq!(Material::lambertian_dir(n, cancel), n);
    // a harmless sample shifts the normal as usual
    let s = Vector3::new(Fx(100), Fx(200), Fx(0));
    assert_eq!(
        Material::lambertian_dir(n, s),
        Vector3::new(Fx(100), Fx(200), Fx(FX_ONE)),
    );
}

/// Metal scattering always reflects into the normal's hemisphere.
#[test]
fn metal_scatter_non_negative_dot() {
    let mut rng = RngSource::from_seed(9);
    let albedo = Color::new(Fx(52428), Fx(52428), Fx(52428));
    let sphere = Sphere::new_pos_t(v(0, 0, -2), Material::Metal(albedo), Fx(FX_ONE / 2));
    // several incoming directions, all striking the sphere
    let dirs = vec![
        Vector3::new(Fx(0), Fx(0), Fx(-FX_ONE)),
        Vector3::new(Fx(FX_ONE / 8), Fx(0), Fx(-FX_ONE)),
        Vector3::new(Fx(-FX_ONE / 8), Fx(FX_ONE / 16), Fx(-FX_ONE)),
    ];
    for d in dirs {
        let ray = Ray::new(v(0, 0, 0), d);
        let col = sphere.hit(ray).expect("ray aimed at the sphere");
        let scatter = Material::scatter(ray, &col, &mut rng);
        assert!(scatter.normal_matches);
        assert!(Vector3::dot(&scatter.ray.direction, &col.normal).0 >= 0);
        assert_eq!(scatter.attenuation, albedo);
        assert_eq!(scatter.ray.origin, col.hit_point);
    }
}

/// Lambertian scattering starts at the hit point, never emits a zero
/// direction, and carries the texture's color.
#[test]
fn lambertian_scatter_shape() {
    let mut rng = RngSource::from_seed(13);
    let red = Color::new(Fx(FX_ONE), Fx(0), Fx(0));
    let sphere = Sphere::new_pos_t(
        v(0, 0, -2),
        Material::Lambertian(Texture::from_color(red)),
        Fx(FX_ONE / 2),
    );
    let ray = Ray::new(v(0, 0, 0), v(0, 0, -1));
    let col = sphere.hit(ray).expect("head-on hit");
    for _ in 0..20 {
        let scatter = Material::scatter(ray, &col, &mut rng);
        assert!(scatter.normal_matches);
        assert_eq!(scatter.attenuation, red);
        assert_eq!(scatter.ray.origin, col.hit_point);
        assert!(!scatter.ray.direction.near_zero());
    }
}

/// A textured Lambertian sphere: the scatter's attenuation is the texel the
/// hit's surface coordinates select, carried intact through the world's
/// nearest-hit copy of the material.
#[test]
fn image_texture_attenuation_through_world_hit() {
    let mut rng = RngSource::from_seed(21);
    let p0 = Color::new(Fx(1000), Fx(0), Fx(0));
    let p1 = Color::new(Fx(2000), Fx(0), Fx(0));
    let p2 = Color::new(Fx(3000), Fx(0), Fx(0));
    let p3 = Color::new(Fx(4000), Fx(0), Fx(0));
    let tex = Texture::from_pixels(2, 2, vec![p0, p1, p2, p3]);

    let mut world = World::new();
    world.insert(Shape::sphere(Sphere::new_pos_t(
        v(0, 0, -2),
        Material::Lambertian(tex),
        Fx(FX_ONE / 2),
    )));

    let ray = Ray::new(v(0, 0, 0), v(0, 0, -1));
    let col = world.hit(ray).expect("head-on hit");
    // head-on hit of the +z pole of the sphere: uv = (0.25, 0.5); after the
    // vertical flip that lands in the second row, left column of the grid
    assert_eq!(col.uv.a.0, 16384);
    assert_eq!(col.uv.b.0, 32768);
    let scatter = Material::scatter(ray, &col, &mut rng);
    assert_eq!(scatter.attenuation, p2);
}

/// Gamma-correction round trip at one sample per pixel: the finished pixel
/// is the clamped square root of the accumulated color.
#[test]
fn gamma_round_trip_single_sample() {
    // k = 0.25 per channel: sqrt gives 0.5
    let k = Color::new(Fx(FX_ONE / 4), Fx(FX_ONE / 4), Fx(FX_ONE / 4));
    let out = Camera::finish_pixel(k, 1);
    assert_eq!(out, Color::new(Fx(FX_ONE / 2), Fx(FX_ONE / 2), Fx(FX_ONE / 2)));

    // channels at or above one clamp at the channel maximum, just below one
    let bright = Color::new(Fx(4 * FX_ONE), Fx(FX_ONE), Fx(0));
    let clamped = Camera::finish_pixel(bright, 1);
    assert_eq!(clamped, Color::new(Fx(CHANNEL_MAX), Fx(CHANNEL_MAX), Fx(0)));
}

#[test]
fn finish_pixel_averages_over_samples() {
    // sixteen accumulated samples of 0.25 average to 0.25; sqrt gives 0.5
    let sum = Color::new(Fx(4 * FX_ONE), Fx(4 * FX_ONE), Fx(4 * FX_ONE));
    let out = Camera::finish_pixel(sum, 16);
    assert_eq!(out, Color::new(Fx(FX_ONE / 2), Fx(FX_ONE / 2), Fx(FX_ONE / 2)));
}

fn test_camera(width: i32, height: i32, fov_deg: i64) -> (Camera, Image) {
    let image = Image::new(width, height, Fx::from_int(fov_deg), 1);
    let camera = Camera::new(
        v(0, 1, 0),  // up
        v(0, 0, 0),  // at: the eye
        v(0, 0, -1),  // to: looking down -z
        image,
    );
    (camera, image)
}

/// At a zero field of view the tangent is exactly zero, so every derived
/// field of the frustum is exact on the grid.
#[test]
fn camera_construction_exact_at_zero_fov() {
    let (camera, _) = test_camera(4, 4, 0);
    // the viewport degenerates: no right or up extent
    assert_eq!(camera.right, v(0, 0, 0));
    assert_eq!(camera.up, v(0, 0, 0));
    assert_eq!(camera.at, v(0, 0, 0));
    assert_eq!(camera.to, v(0, 0, -1));
    // the lower-left corner sits one unit in front of the eye
    assert_eq!(camera.ll_corner, v(0, 0, -1));
}

#[test]
fn camera_rays_start_at_the_eye() {
    let (camera, _) = test_camera(4, 4, 90);
    let r = camera.get_ray(Fx(FX_ONE / 2), Fx(FX_ONE / 2));
    assert_eq!(r.origin, v(0, 0, 0));
    // the center ray heads into the scene
    assert!(r.direction.c.0 < 0);
    // viewport symmetry: the center ray has no sideways drift
    assert_eq!(r.direction.a.0, 0);
}

/// End-to-end: a Lambertian sphere in front of the camera at depth one. The
/// center ray hits and contributes attenuation times black, so the center
/// pixel is strictly darker than a sky pixel.
#[test]
fn single_sphere_center_darker_than_sky() {
    let mut rng = RngSource::from_seed(2026);
    let (camera, _) = test_camera(4, 4, 90);

    let mut world = World::new();
    world.insert(Shape::sphere(Sphere::new_pos_t(
        v(0, 0, -1),
        Material::Lambertian(Texture::from_color(Color::new(
            Fx(FX_ONE / 2),
            Fx(FX_ONE / 2),
            Fx(FX_ONE / 2),
        ))),
        Fx(FX_ONE / 2),
    )));

    let center = camera.get_ray(Fx(FX_ONE / 2), Fx(FX_ONE / 2));
    let corner = camera.get_ray(Fx(0), Fx(0));
    assert!(world.hit(center).is_some());
    assert!(world.hit(corner).is_none());

    let center_color = center.ray_color(&world, 1, &mut rng);
    let sky_color = corner.ray_color(&world, 1, &mut rng);

    assert_eq!(center_color, black());
    assert!(center_color.a.0 < sky_color.a.0);
    assert!(center_color.b.0 < sky_color.b.0);
    assert!(center_color.c.0 < sky_color.c.0);
}

/// The whole pipeline holds its output inside the writable channel range.
#[test]
fn sample_pixel_stays_in_channel_range() {
    let mut rng = RngSource::from_seed(77);
    let (camera, image) = test_camera(8, 8, 90);

    let mut world = World::new();
    world.insert(Shape::sphere(Sphere::new_pos_t(
        v(0, 0, -1),
        Material::Metal(Color::new(Fx(52428), Fx(52428), Fx(52428))),
        Fx(FX_ONE / 2),
    )));

    let context = RenderObject {
        coordinate: Vector3::new(Fx(3 * FX_ONE), Fx(4 * FX_ONE), Fx(0)),
        image,
        camera,
        world,
    };

    let pixel = context.camera.sample_pixel(&context, &mut rng);
    for ch in [pixel.a.0, pixel.b.0, pixel.c.0] {
        assert!(0 <= ch && ch <= CHANNEL_MAX);
    }
}
