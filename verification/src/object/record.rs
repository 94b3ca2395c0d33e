//! What an intersection test reports.

use crate::object::material::MaterialObject;
use crate::utils::scalar::Scalar;
use crate::utils::vec3::Vec3;
use vstd::prelude::*;

verus! {

/// The way a ray crosses a surface.
#[derive(Clone, Copy, Debug, PartialEq, Eq, Structural)]
pub enum Face {
    /// The ray comes from outside and goes in.
    Inward,
    /// The ray comes from inside and goes out.
    Outward,
}

/// A point where a ray meets an object.
#[derive(Clone, Copy, Debug)]
pub struct HitRecord {
    /// The point that was hit.
    pub p: Vec3,
    /// The surface normal at `p`, turned against the incoming ray.
    pub normal: Vec3,
    /// The ray parameter of `p`.
    pub t: Scalar,
    /// First surface coordinate of `p`.
    pub u: Scalar,
    /// Second surface coordinate of `p`.
    pub v: Scalar,
    /// The side from which the ray arrives.
    pub f: Face,
    /// The material of the object at `p`.
    pub mat: MaterialObject,
}

} // verus!
