//! From a scene to colours: the background, the camera and the path tracer.

pub mod camera;
pub mod integrator;
pub mod skybox;

pub use crate::render::camera::Camera;
pub use crate::render::integrator::{mean, ray_color, render_pixel, sample_pixel};
pub use crate::render::skybox::ColorGradientSkyBox;
