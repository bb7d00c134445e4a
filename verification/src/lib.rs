//! An offline CPU raytracer core.
//!
//! All geometry and shading arithmetic is carried out in signed 64-bit
//! fixed-point numbers (16 fractional bits), so every computation has an
//! exact mathematical model and every function carries a proved contract.
//! File loading, image encoding and parallel dispatch live outside this
//! library and talk to it through plain values.

pub mod affine;
pub mod color;
pub mod fx;
pub mod intersection;
pub mod light;
pub mod material;
pub mod mesh;
pub mod node;
pub mod primitive;
pub mod ray;
pub mod raytrace;
pub mod rng;
pub mod texture;
pub mod trig;
pub mod vec3;
pub mod volume;

pub use crate::raytrace::Raytracer;
