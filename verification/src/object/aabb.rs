//! Boxes with sides parallel to the axes that enclose objects.

use crate::utils::scalar::Scalar;
use crate::utils::vec3::Vec3;
use vstd::prelude::*;

verus! {

impl Vec3 {
    pub open spec fn spec_lower(self, o: Vec3) -> Vec3 {
        Vec3(self.0.min(o.0), self.1.min(o.1), self.2.min(o.2))
    }

    /// The smaller of the two along each axis.
    #[verifier::when_used_as_spec(spec_lower)]
    pub fn lower(self, o: Vec3) -> (r: Vec3)
        ensures
            r == self.spec_lower(o),
    {
        Vec3(self.0.min(o.0), self.1.min(o.1), self.2.min(o.2))
    }

    pub open spec fn spec_upper(self, o: Vec3) -> Vec3 {
        Vec3(self.0.max(o.0), self.1.max(o.1), self.2.max(o.2))
    }

    /// The larger of the two along each axis.
    #[verifier::when_used_as_spec(spec_upper)]
    pub fn upper(self, o: Vec3) -> (r: Vec3)
        ensures
            r == self.spec_upper(o),
    {
        Vec3(self.0.max(o.0), self.1.max(o.1), self.2.max(o.2))
    }

    /// No coordinate of `self` is above that of `o`.
    pub open spec fn below(self, o: Vec3) -> bool {
        self.0.raw <= o.0.raw && self.1.raw <= o.1.raw && self.2.raw <= o.2.raw
    }
}

/// The box of the points between `min` and `max` along each axis.
#[derive(Clone, Copy, Debug, PartialEq, Eq, Structural)]
pub struct Aabb {
    pub min: Vec3,
    pub max: Vec3,
}

impl Aabb {
    /// The box between `min` and `max`.
    pub fn new(min: Vec3, max: Vec3) -> (b: Aabb)
        ensures
            b == (Aabb { min, max }),
    {
        Aabb { min, max }
    }

    pub open spec fn spec_union(self, o: Aabb) -> Aabb {
        Aabb { min: self.min.spec_lower(o.min), max: self.max.spec_upper(o.max) }
    }

    /// The smallest box that holds both boxes.
    #[verifier::when_used_as_spec(spec_union)]
    pub fn union(self, o: Aabb) -> (b: Aabb)
        ensures
            b == self.spec_union(o),
    {
        Aabb { min: self.min.lower(o.min), max: self.max.upper(o.max) }
    }

    /// The box `o` lies inside this one.
    pub open spec fn encloses(self, o: Aabb) -> bool {
        self.min.below(o.min) && o.max.below(self.max)
    }

    /// A union holds both of its parts, and whatever one of its parts holds.
    pub proof fn lemma_union_encloses(a: Aabb, b: Aabb, c: Aabb)
        ensures
            a.spec_union(b).encloses(a),
            a.spec_union(b).encloses(b),
            a.encloses(c) ==> a.spec_union(b).encloses(c),
    {
    }
}

} // verus!
