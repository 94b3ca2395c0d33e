//! Rays: half-lines with a time stamp.

use crate::utils::scalar::Scalar;
use crate::utils::vec3::Vec3;
use vstd::prelude::*;

verus! {

/// The points `orig + s * dir` for `s >= 0`, seen at time `t`.
#[derive(Clone, Copy, Debug, PartialEq, Eq, Structural)]
pub struct Ray {
    pub orig: Vec3,
    pub dir: Vec3,
    pub t: Scalar,
}

impl Ray {
    /// The ray from `orig` along `dir` at time `t`.
    pub fn new(orig: Vec3, dir: Vec3, t: Scalar) -> (r: Ray)
        ensures
            r == (Ray { orig, dir, t }),
    {
        Ray { orig, dir, t }
    }

    /// Where the ray starts.
    pub fn origin(&self) -> (r: Vec3)
        ensures
            r == self.orig,
    {
        self.orig
    }

    /// The direction of the ray, of any length.
    pub fn direction(&self) -> (r: Vec3)
        ensures
            r == self.dir,
    {
        self.dir
    }

    /// The moment at which the ray is cast.
    pub fn time(&self) -> (r: Scalar)
        ensures
            r == self.t,
    {
        self.t
    }

    pub open spec fn spec_at(&self, s: Scalar) -> Vec3 {
        self.orig.plus(self.dir.scaled(s))
    }

    /// The point at parameter `s` along the ray.
    #[verifier::when_used_as_spec(spec_at)]
    pub fn at(&self, s: Scalar) -> (r: Vec3)
        ensures
            r == self.spec_at(s),
    {
        self.orig.plus(self.dir.scaled(s))
    }
}

} // verus!
