//! Numeric primitives: scalars, vectors, rays, elementary functions and
//! random draws.

pub mod elementary;
pub mod normalize;
pub mod ray;
pub mod sampling;
pub mod scalar;
pub mod vec3;
