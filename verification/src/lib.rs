//! A Monte Carlo path tracer over saturating fixed-point arithmetic.
//!
//! Every quantity (coordinates, directions, colours, times) is a
//! [`utils::scalar::Scalar`]: a signed count of millionths. Operations saturate
//! at the ends of the range instead of overflowing, so every function of the
//! renderer is total.

pub mod config;
pub mod object;
pub mod render;
pub mod utils;
