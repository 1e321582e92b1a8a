//! The camera: a view frustum built from eye, look-at and up vectors and a
//! field of view, the per-pixel ray generator, and the sampling loop that
//! averages jittered rays into a gamma-corrected pixel.

use vstd::prelude::*;
use crate::fixed::{
    Fx, fx_add, fx_sub, fx_mul, fx_div, fx_clamp, fx_sqrt, SCALE, FX_ONE, lemma_mul_div_exact,
};
use crate::math::{fx_clamp3, random_fx, deg_to_rad, clamp};
use crate::trig::{fx_tan, fx_tan_s, FX_PI};
use crate::vector::{Point, Color, Vec3i, vadd, vscale, vcross, vunit, vec_ok};
use crate::ray::{Ray, Rayi, ray_color_post};
use crate::image::{Image, RenderObject};
use crate::rng::RngSource;

verus! {

/// Bounce budget of every sampled ray.
pub const MAX_DEPTH: i32 = 20;

/// Channels of a finished pixel are clamped just below one, so that the
/// writer's scaling never reaches the channel maximum; `0.999` on the grid.
pub const CHANNEL_MAX: i64 = 65470;

/// Mathematical model of a camera.
pub ghost struct CamV {
    pub up: Vec3i,
    pub to: Vec3i,
    pub at: Vec3i,
    pub ll_corner: Vec3i,
    pub right: Vec3i,
}

/// The derived frustum: backward, right and true-up axes from the view
/// vectors, a viewport sized by the field of view and aspect ratio, and its
/// lower-left corner one unit in front of the eye.
pub open spec fn camera_spec(up: Vec3i, at: Vec3i, to: Vec3i, width: int, height: int, fov: int)
    -> CamV {
    let aspect_ratio = fx_div(fx_clamp(width * (SCALE as int)), fx_clamp(height * (SCALE as int)));
    let theta = fx_div(fx_mul(fov, FX_PI as int), 180 * (FX_ONE as int));
    let view_height = fx_mul(2 * (FX_ONE as int), fx_tan_s(fx_div(theta, 2 * (FX_ONE as int))));
    let view_width = fx_mul(view_height, aspect_ratio);
    let w = vunit(vadd(at, vscale(to, -(FX_ONE as int))));
    let u = vunit(vcross(up, w));
    let v = vcross(w, u);
    let right = vscale(u, view_width);
    let up_vec = vscale(v, view_height);
    let half = (FX_ONE as int) / 2;
    let ll_corner = vadd(
        vadd(vadd(at, vscale(right, -half)), vscale(up_vec, -half)),
        vscale(w, -(FX_ONE as int)),
    );
    CamV { up: up_vec, to, at, ll_corner, right }
}

/// The direction of the ray through viewport coordinates `(s, t)`.
pub open spec fn ray_dir_spec(cam: CamV, s: int, t: int) -> Vec3i {
    vadd(
        vadd(vadd(cam.ll_corner, vscale(cam.right, s)), vscale(cam.up, t)),
        vscale(cam.at, -(FX_ONE as int)),
    )
}

/// Gamma-2 correction and clamping of an averaged pixel: the square root of
/// each channel, kept inside `[0, CHANNEL_MAX]`.
pub open spec fn gamma_spec(c: Vec3i) -> Vec3i {
    Vec3i {
        a: fx_clamp3(fx_sqrt(c.a), 0, CHANNEL_MAX as int),
        b: fx_clamp3(fx_sqrt(c.b), 0, CHANNEL_MAX as int),
        c: fx_clamp3(fx_sqrt(c.c), 0, CHANNEL_MAX as int),
    }
}

/// A finished pixel: the accumulated color scaled by the reciprocal sample
/// count, then gamma-corrected and clamped.
pub open spec fn finish_spec(sum: Vec3i, samples: int) -> Vec3i {
    gamma_spec(vscale(sum, fx_div(FX_ONE as int, fx_clamp(samples * (SCALE as int)))))
}

/// One sample's record: the two unit-interval jitter draws and the color the
/// path integrator produced for the jittered ray.
pub ghost struct SampleRec {
    pub ju: int,
    pub jv: int,
    pub col: Vec3i,
}

/// The accumulated color of a sequence of samples, summed left to right.
pub open spec fn sum_colors(s: Seq<SampleRec>) -> Vec3i
    decreases s.len(),
{
    if s.len() == 0 {
        Vec3i { a: 0int, b: 0int, c: 0int }
    } else {
        vadd(sum_colors(s.drop_last()), s.last().col)
    }
}

/// The normalized horizontal viewport coordinate of a jittered pixel:
/// `(coordinate + jitter) / (width - 1)`.
pub open spec fn jitter_u(ctx: RenderObject, ju: int) -> int {
    fx_div(
        fx_add(ctx.coordinate@.a, ju),
        fx_sub(fx_clamp((ctx.image.width as int) * (SCALE as int)), FX_ONE as int),
    )
}

/// The normalized vertical viewport coordinate of a jittered pixel.
pub open spec fn jitter_v(ctx: RenderObject, jv: int) -> int {
    fx_div(
        fx_add(ctx.coordinate@.b, jv),
        fx_sub(fx_clamp((ctx.image.height as int) * (SCALE as int)), FX_ONE as int),
    )
}

/// What one sample may contribute: jitters inside the unit interval, and a
/// possible outcome of the path integrator, at the full bounce budget, for
/// the camera ray through the jittered pixel coordinates.
pub open spec fn sample_ok(ctx: RenderObject, rec: SampleRec) -> bool {
    &&& 0 <= rec.ju < FX_ONE as int
    &&& 0 <= rec.jv < FX_ONE as int
    &&& ray_color_post(
        ctx.world.objects@,
        Rayi {
            origin: ctx.camera@.at,
            direction: ray_dir_spec(ctx.camera@, jitter_u(ctx, rec.ju), jitter_v(ctx, rec.jv)),
        },
        MAX_DEPTH as int,
        rec.col,
    )
}

/// A uniform draw from the unit interval, `[0, 1)` on the grid.
fn unit_jitter(rng: &mut RngSource) -> (r: Fx)
    ensures
        0 <= r@ < FX_ONE as int,
{
    let j: Fx = random_fx(rng, Fx(0), Fx(FX_ONE));
    proof {
        let y = choose|y: int|
            0 <= y < SCALE && j@ == fx_add(fx_mul(fx_sub(FX_ONE as int, 0), y), 0);
        assert(fx_sub(FX_ONE as int, 0) == FX_ONE as int);
        lemma_mul_div_exact(y);
        assert((FX_ONE as int) * y == y * (SCALE as int));
        assert(fx_mul(FX_ONE as int, y) == y);
        assert(j@ == y);
    }
    j
}

/// With a single sample the average is the sample itself, so the finished
/// pixel is exactly the clamped square root of the accumulated color.
pub proof fn lemma_finish_single_sample(c: Vec3i)
    requires
        vec_ok(c),
    ensures
        finish_spec(c, 1) == gamma_spec(c),
{
    lemma_mul_div_exact(SCALE as int);
    assert(fx_div(FX_ONE as int, fx_clamp(1 * (SCALE as int))) == FX_ONE as int);
    lemma_mul_div_exact(c.a);
    lemma_mul_div_exact(c.b);
    lemma_mul_div_exact(c.c);
    assert(vscale(c, FX_ONE as int) == c);
}

#[derive(Clone, Copy)]
pub struct Camera {
    /// The viewport's up-basis vector, scaled to the viewport height.
    pub up: Point,
    /// The look-at target.
    pub to: Point,
    /// The eye position; origin of every generated ray.
    pub at: Point,
    /// The world position of the viewport's lower-left corner.
    pub ll_corner: Point,
    /// The viewport's right-basis vector, scaled to the viewport width.
    pub right: Point,
}

impl View for Camera {
    type V = CamV;

    open spec fn view(&self) -> CamV {
        CamV {
            up: self.up@,
            to: self.to@,
            at: self.at@,
            ll_corner: self.ll_corner@,
            right: self.right@,
        }
    }
}

impl Camera {
    pub fn new(up: Point, at: Point, to: Point, image: Image) -> (r: Camera)
        ensures
            r@ == camera_spec(
                up@,
                at@,
                to@,
                image.width as int,
                image.height as int,
                image.fov@,
            ),
    {
        let aspect_ratio: Fx = Fx::from_int(image.width as i64).div(
            Fx::from_int(image.height as i64),
        );
        let theta: Fx = deg_to_rad(image.fov);

        let view_height: Fx = Fx(2 * FX_ONE).mul(fx_tan(theta.div(Fx(2 * FX_ONE))));
        let view_width: Fx = view_height.mul(aspect_ratio);

        let w: Point = at.add(to.scalar_mul(Fx(-FX_ONE))).unit();
        let u: Point = up.cross(w).unit();
        let v: Point = w.cross(u);

        let right: Point = u.scalar_mul(view_width);
        let up_scaled: Point = v.scalar_mul(view_height);

        let ll_corner: Point = at.add(right.scalar_mul(Fx(-(FX_ONE / 2)))).add(
            up_scaled.scalar_mul(Fx(-(FX_ONE / 2))),
        ).add(w.scalar_mul(Fx(-FX_ONE)));

        Camera { up: up_scaled, to, at, ll_corner, right }
    }

    /// The ray from the eye through viewport coordinates `(u, v)`.
    pub fn get_ray(self, u: Fx, v: Fx) -> (r: Ray)
        ensures
            r.origin@ == self.at@,
            r.direction@ == ray_dir_spec(self@, u@, v@),
    {
        let dir: Point = self.ll_corner.add(self.right.scalar_mul(u)).add(
            self.up.scalar_mul(v),
        ).add(self.at.scalar_mul(Fx(-FX_ONE)));

        Ray::new(self.at, dir)
    }

    /// Scale an accumulated pixel by the reciprocal sample count, then apply
    /// gamma-2 correction and clamp each channel into `[0, CHANNEL_MAX]`.
    pub fn finish_pixel(pixel: Color, samples: i32) -> (r: Color)
        ensures
            r@ == finish_spec(pixel@, samples as int),
            0 <= r@.a <= CHANNEL_MAX as int,
            0 <= r@.b <= CHANNEL_MAX as int,
            0 <= r@.c <= CHANNEL_MAX as int,
    {
        let scale: Fx = Fx(FX_ONE).div(Fx::from_int(samples as i64));
        let color: Color = pixel.scalar_mul(scale);

        Color::new(
            clamp(color.a.sqrt(), Fx(0), Fx(CHANNEL_MAX)),
            clamp(color.b.sqrt(), Fx(0), Fx(CHANNEL_MAX)),
            clamp(color.c.sqrt(), Fx(0), Fx(CHANNEL_MAX)),
        )
    }

    /// The average color found by sampling jittered rays around a pixel:
    /// every sample's ray gets its color from the path integrator, the sum
    /// is averaged, gamma-corrected and clamped.
    ///
    /// The contract exhibits one record per sample — its jitter draws in the
    /// unit interval and its color, a possible outcome of the path
    /// integrator for the camera ray through the jittered coordinates — and
    /// pins the result to the finished sum of those colors.
    pub fn sample_pixel(&self, context: &RenderObject, rng: &mut RngSource) -> (r: Color)
        requires
            context.world.wf(),
        ensures
            exists|samples: Seq<SampleRec>|
                {
                    &&& samples.len() == (if context.image.samples_per_pixel > 0 {
                        context.image.samples_per_pixel as int
                    } else {
                        0
                    })
                    &&& (forall|i: int|
                        0 <= i < samples.len() ==> sample_ok(*context, #[trigger] samples[i]))
                    &&& r@ == finish_spec(
                        sum_colors(samples),
                        context.image.samples_per_pixel as int,
                    )
                },
            0 <= r@.a <= CHANNEL_MAX as int,
            0 <= r@.b <= CHANNEL_MAX as int,
            0 <= r@.c <= CHANNEL_MAX as int,
    {
        let mut pixel: Color = Color::origin();
        let ghost mut samples: Seq<SampleRec> = Seq::empty();

        let mut s: i32 = 0;
        while s < context.image.samples_per_pixel
            invariant
                context.world.wf(),
                0 <= s,
                context.image.samples_per_pixel >= 0 ==> s <= context.image.samples_per_pixel,
                context.image.samples_per_pixel < 0 ==> s == 0,
                samples.len() == s as int,
                forall|i: int| 0 <= i < samples.len() ==> sample_ok(*context, #[trigger] samples[i]),
                pixel@ == sum_colors(samples),
            decreases context.image.samples_per_pixel - s,
        {
            let ju: Fx = unit_jitter(rng);
            let jv: Fx = unit_jitter(rng);
            let u: Fx = context.coordinate.a.add(ju).div(
                Fx::from_int(context.image.width as i64).sub(Fx(FX_ONE)),
            );
            let v: Fx = context.coordinate.b.add(jv).div(
                Fx::from_int(context.image.height as i64).sub(Fx(FX_ONE)),
            );

            let ray: Ray = context.camera.get_ray(u, v);
            let color: Color = ray.ray_color(&context.world, MAX_DEPTH, rng);
            pixel = pixel.add(color);
            proof {
                let rec = SampleRec { ju: ju@, jv: jv@, col: color@ };
                assert(u@ == jitter_u(*context, ju@));
                assert(v@ == jitter_v(*context, jv@));
                assert(sample_ok(*context, rec));
                let prev = samples;
                samples = samples.push(rec);
                assert(samples.drop_last() =~= prev);
                assert(samples.last() == rec);
            }
            s = s + 1;
        }

        Camera::finish_pixel(pixel, context.image.samples_per_pixel)
    }
}

} // verus!
