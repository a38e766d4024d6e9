//! A recursive ray tracer over fixed-point arithmetic.
//!
//! The engine casts one ray per output pixel, finds the nearest surface,
//! and evaluates direct lighting, shadows, and recursive reflection and
//! refraction. All geometry and color math runs over a saturating
//! fixed-point scalar, so every routine carries an exact contract.

pub mod camera;
pub mod fixed;
pub mod image;
pub mod intersection;
pub mod lights;
pub mod material;
pub mod objects;
pub mod pixel;
pub mod ray;
pub mod ray_tracer;
pub mod scene;
pub mod vector;
