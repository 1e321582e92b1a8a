//! Render configuration: output dimensions, sampling rate and field of view,
//! and the bundle of state a pixel sample reads.

use vstd::prelude::*;
use crate::fixed::Fx;
use crate::vector::Point;
use crate::camera::Camera;
use crate::hittable::World;

verus! {

/// Pure configuration of a render target.
#[derive(Clone, Copy)]
pub struct Image {
    pub width: i32,
    pub height: i32,
    pub samples_per_pixel: i32,
    /// Vertical field of view, in degrees.
    pub fov: Fx,
}

impl Image {
    pub fn new(width: i32, height: i32, fov: Fx, samples: i32) -> (r: Image)
        ensures
            r.width == width,
            r.height == height,
            r.fov == fov,
            r.samples_per_pixel == samples,
    {
        Image { width, height, fov, samples_per_pixel: samples }
    }
}

/// Everything a per-pixel sample reads: the pixel coordinate and the shared,
/// read-only scene.
pub struct RenderObject {
    pub coordinate: Point,
    pub image: Image,
    pub camera: Camera,
    pub world: World,
}

} // verus!
