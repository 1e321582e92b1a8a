//! A stochastic ray-tracing core over saturating fixed-point arithmetic.
//!
//! Scene geometry, colors and ray parameters are `Fx` values: 48.16
//! fixed-point numbers that saturate at `FX_MAX` instead of overflowing.
//! Every operation of the rendering pipeline carries a contract stated
//! over the mathematical model of that arithmetic.

pub mod camera;
pub mod fixed;
pub mod hittable;
pub mod image;
pub mod material;
pub mod math;
pub mod plane;
pub mod ray;
pub mod rng;
pub mod shape;
pub mod sphere;
pub mod texture;
pub mod trig;
pub mod vector;
