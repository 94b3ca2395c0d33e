//! Boxes with sides parallel to the axes.

use crate::object::material::MaterialObject;
use crate::object::nearest::{bound_after, lemma_nearest_of_restricts, nearest_of, restricted};
use crate::object::record::HitRecord;
use crate::object::rect::{AxisRect, Plane};
use crate::utils::ray::Ray;
use crate::utils::scalar::Scalar;
use crate::utils::vec3::Vec3;
use vstd::prelude::*;

verus! {

/// The box between the corners `min` and `max`, closed by six rectangles.
#[derive(Clone, Copy, Debug)]
pub struct Cube {
    pub min: Vec3,
    pub max: Vec3,
    pub mat: MaterialObject,
}

impl Cube {
    /// The box between `min` and `max`.
    pub fn new(min: Vec3, max: Vec3, mat: MaterialObject) -> (c: Cube)
        ensures
            c.min == min,
            c.max == max,
            c.mat == mat,
    {
        Cube { min, max, mat }
    }

    pub open spec fn spec_side(&self, i: int) -> AxisRect {
        let (lo, hi) = (self.min, self.max);
        if i == 0 {
            AxisRect { plane: Plane::XY, a0: lo.0, a1: hi.0, b0: lo.1, b1: hi.1, k: hi.2, mat: self.mat }
        } else if i == 1 {
            AxisRect { plane: Plane::XY, a0: lo.0, a1: hi.0, b0: lo.1, b1: hi.1, k: lo.2, mat: self.mat }
        } else if i == 2 {
            AxisRect { plane: Plane::XZ, a0: lo.0, a1: hi.0, b0: lo.2, b1: hi.2, k: hi.1, mat: self.mat }
        } else if i == 3 {
            AxisRect { plane: Plane::XZ, a0: lo.0, a1: hi.0, b0: lo.2, b1: hi.2, k: lo.1, mat: self.mat }
        } else if i == 4 {
            AxisRect { plane: Plane::YZ, a0: lo.1, a1: hi.1, b0: lo.2, b1: hi.2, k: hi.0, mat: self.mat }
        } else {
            AxisRect { plane: Plane::YZ, a0: lo.1, a1: hi.1, b0: lo.2, b1: hi.2, k: lo.0, mat: self.mat }
        }
    }

    /// Side `i` of the box, for `i` from 0 to 5: the far and the near side
    /// across `z`, then across `y`, then across `x`.
    pub fn side(&self, i: usize) -> (r: AxisRect)
        ensures
            r == self.spec_side(i as int),
    {
        let (lo, hi) = (self.min, self.max);
        if i == 0 {
            AxisRect { plane: Plane::XY, a0: lo.0, a1: hi.0, b0: lo.1, b1: hi.1, k: hi.2, mat: self.mat }
        } else if i == 1 {
            AxisRect { plane: Plane::XY, a0: lo.0, a1: hi.0, b0: lo.1, b1: hi.1, k: lo.2, mat: self.mat }
        } else if i == 2 {
            AxisRect { plane: Plane::XZ, a0: lo.0, a1: hi.0, b0: lo.2, b1: hi.2, k: hi.1, mat: self.mat }
        } else if i == 3 {
            AxisRect { plane: Plane::XZ, a0: lo.0, a1: hi.0, b0: lo.2, b1: hi.2, k: lo.1, mat: self.mat }
        } else if i == 4 {
            AxisRect { plane: Plane::YZ, a0: lo.1, a1: hi.1, b0: lo.2, b1: hi.2, k: hi.0, mat: self.mat }
        } else {
            AxisRect { plane: Plane::YZ, a0: lo.1, a1: hi.1, b0: lo.2, b1: hi.2, k: lo.0, mat: self.mat }
        }
    }

    /// What side `i` reports for `ray` between `tmin` and `bound`.
    pub open spec fn side_hits(&self, ray: Ray, tmin: Scalar) -> spec_fn(int, Scalar) -> Option<
        HitRecord,
    > {
        |i: int, bound: Scalar| self.spec_side(i).spec_hit(ray, tmin, bound)
    }

    pub open spec fn spec_hit(&self, ray: Ray, tmin: Scalar, tmax: Scalar) -> Option<HitRecord> {
        nearest_of(self.side_hits(ray, tmin), 6, tmax)
    }

    /// The nearest point between `tmin` and `tmax` at which `ray` crosses one
    /// of the six sides.
    pub fn hit(&self, ray: &Ray, tmin: Scalar, tmax: Scalar) -> (res: Option<HitRecord>)
        ensures
            res == self.spec_hit(*ray, tmin, tmax),
    {
        let ghost hits = self.side_hits(*ray, tmin);
        let mut best: Option<HitRecord> = None;
        let mut closest = tmax;
        let mut i: usize = 0;
        while i < 6
            invariant
                i <= 6,
                hits == self.side_hits(*ray, tmin),
                best == nearest_of(hits, i as nat, tmax),
                closest == bound_after(best, tmax),
            decreases 6 - i,
        {
            match self.side(i).hit(ray, tmin, closest) {
                Some(h) => {
                    closest = h.t;
                    best = Some(h);
                },
                None => {},
            }
            i = i + 1;
        }
        best
    }
}

impl Cube {
    /// Asking a box for hits below a smaller bound only hides the hit at that
    /// bound or beyond.
    pub proof fn lemma_hit_restricts(&self, ray: Ray, tmin: Scalar, tmax: Scalar, b: Scalar)
        requires
            b.raw <= tmax.raw,
        ensures
            self.spec_hit(ray, tmin, b) == restricted(self.spec_hit(ray, tmin, tmax), b),
    {
        let hits = self.side_hits(ray, tmin);
        assert forall|i: int, x: Scalar| 0 <= i < 6 && x.raw <= tmax.raw implies #[trigger] hits(
            i,
            x,
        ) == restricted(hits(i, tmax), x) by {}
        lemma_nearest_of_restricts(hits, 6, tmax, b);
    }
}

} // verus!
