//! A Monte-Carlo ray tracer over exact fixed-point arithmetic.
//!
//! Every scalar is a signed 64-bit integer holding a real number scaled by
//! `fixed::FP_ONE` (a binary fixed-point format). All geometric and shading
//! computations are specified and verified over this exact integer model;
//! rendering output is deterministic for a fixed seed.

pub mod aabb;
pub mod camera;
pub mod color;
pub mod fixed;
pub mod hittable;
pub mod interval;
pub mod material;
pub mod ray;
pub mod rng;
pub mod rtw_image;
pub mod texture;
pub mod trig;
pub mod vec3;
