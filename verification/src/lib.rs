//! The core of a ray tracer: what color a ray sees in a scene of shapes lit
//! by a point light, by Phong shading with shadows.
//!
//! All arithmetic is fixed-point and total, so that every function is
//! verified down to the last digit of what it returns: see [`scalar`]. What
//! the rounding costs is bounded in [`precision`].

pub mod color;
pub mod error;
pub mod intersection;
pub mod matrix;
pub mod point_light;
pub mod precision;
pub mod scalar;
pub mod transformation;
pub mod tuple;
pub mod world;
