//! Rectangles parallel to two of the axes.

use crate::object::aabb::Aabb;
use crate::object::material::MaterialObject;
use crate::object::record::{Face, HitRecord};
use crate::object::sphere::in_range;
use crate::utils::ray::Ray;
use crate::utils::scalar::Scalar;
use crate::utils::vec3::Vec3;
use vstd::prelude::*;

verus! {

/// The two axes that a rectangle is parallel to.
#[derive(Clone, Copy, Debug, PartialEq, Eq, Structural)]
pub enum Plane {
    XY,
    XZ,
    YZ,
}

impl Plane {
    pub open spec fn spec_first(self, p: Vec3) -> Scalar {
        match self {
            Plane::XY => p.0,
            Plane::XZ => p.0,
            Plane::YZ => p.1,
        }
    }

    /// The coordinate of `p` along the first axis of the plane.
    #[verifier::when_used_as_spec(spec_first)]
    pub fn first(self, p: Vec3) -> (r: Scalar)
        ensures
            r == self.spec_first(p),
    {
        match self {
            Plane::XY => p.0,
            Plane::XZ => p.0,
            Plane::YZ => p.1,
        }
    }

    pub open spec fn spec_second(self, p: Vec3) -> Scalar {
        match self {
            Plane::XY => p.1,
            Plane::XZ => p.2,
            Plane::YZ => p.2,
        }
    }

    /// The coordinate of `p` along the second axis of the plane.
    #[verifier::when_used_as_spec(spec_second)]
    pub fn second(self, p: Vec3) -> (r: Scalar)
        ensures
            r == self.spec_second(p),
    {
        match self {
            Plane::XY => p.1,
            Plane::XZ => p.2,
            Plane::YZ => p.2,
        }
    }

    pub open spec fn spec_across(self, p: Vec3) -> Scalar {
        match self {
            Plane::XY => p.2,
            Plane::XZ => p.1,
            Plane::YZ => p.0,
        }
    }

    /// The coordinate of `p` along the axis that the plane is not parallel to.
    #[verifier::when_used_as_spec(spec_across)]
    pub fn across(self, p: Vec3) -> (r: Scalar)
        ensures
            r == self.spec_across(p),
    {
        match self {
            Plane::XY => p.2,
            Plane::XZ => p.1,
            Plane::YZ => p.0,
        }
    }

    pub open spec fn spec_axis(self, k: Scalar) -> Vec3 {
        match self {
            Plane::XY => Vec3(Scalar::zero(), Scalar::zero(), k),
            Plane::XZ => Vec3(Scalar::zero(), k, Scalar::zero()),
            Plane::YZ => Vec3(k, Scalar::zero(), Scalar::zero()),
        }
    }

    /// The vector of length `k` along the axis that the plane is not parallel
    /// to.
    #[verifier::when_used_as_spec(spec_axis)]
    pub fn axis(self, k: Scalar) -> (r: Vec3)
        ensures
            r == self.spec_axis(k),
    {
        match self {
            Plane::XY => Vec3(Scalar::zero(), Scalar::zero(), k),
            Plane::XZ => Vec3(Scalar::zero(), k, Scalar::zero()),
            Plane::YZ => Vec3(k, Scalar::zero(), Scalar::zero()),
        }
    }
}

/// The rectangle `[a0, a1] x [b0, b1]` in the plane where the third
/// coordinate is `k`.
#[derive(Clone, Copy, Debug)]
pub struct AxisRect {
    pub plane: Plane,
    pub a0: Scalar,
    pub a1: Scalar,
    pub b0: Scalar,
    pub b1: Scalar,
    pub k: Scalar,
    pub mat: MaterialObject,
}

impl AxisRect {
    /// The rectangle with corners `p0` and `p1` in the plane `z = k`.
    pub fn xy(p0: (Scalar, Scalar), p1: (Scalar, Scalar), k: Scalar, mat: MaterialObject) -> (r:
        AxisRect)
        ensures
            r == (AxisRect { plane: Plane::XY, a0: p0.0, a1: p1.0, b0: p0.1, b1: p1.1, k, mat }),
    {
        AxisRect { plane: Plane::XY, a0: p0.0, a1: p1.0, b0: p0.1, b1: p1.1, k, mat }
    }

    /// The rectangle with corners `p0` and `p1` in the plane `y = k`.
    pub fn xz(p0: (Scalar, Scalar), p1: (Scalar, Scalar), k: Scalar, mat: MaterialObject) -> (r:
        AxisRect)
        ensures
            r == (AxisRect { plane: Plane::XZ, a0: p0.0, a1: p1.0, b0: p0.1, b1: p1.1, k, mat }),
    {
        AxisRect { plane: Plane::XZ, a0: p0.0, a1: p1.0, b0: p0.1, b1: p1.1, k, mat }
    }

    /// The rectangle with corners `p0` and `p1` in the plane `x = k`.
    pub fn yz(p0: (Scalar, Scalar), p1: (Scalar, Scalar), k: Scalar, mat: MaterialObject) -> (r:
        AxisRect)
        ensures
            r == (AxisRect { plane: Plane::YZ, a0: p0.0, a1: p1.0, b0: p0.1, b1: p1.1, k, mat }),
    {
        AxisRect { plane: Plane::YZ, a0: p0.0, a1: p1.0, b0: p0.1, b1: p1.1, k, mat }
    }

    /// The parameter at which `ray` crosses the plane of the rectangle.
    pub open spec fn crossing(&self, ray: Ray) -> Scalar {
        self.k.minus(self.plane.spec_across(ray.orig)).over(self.plane.spec_across(ray.dir))
    }

    /// The point with in-plane coordinates `(a, b)` lies on the rectangle.
    pub open spec fn covers(&self, a: Scalar, b: Scalar) -> bool {
        self.a0.raw <= a.raw <= self.a1.raw && self.b0.raw <= b.raw <= self.b1.raw
    }

    /// The record of the crossing at parameter `t`, in-plane coordinates
    /// `(a, b)`: the surface coordinates are the shares of the way from one
    /// edge to the opposite one, and the normal is the axis across the plane,
    /// turned against the ray.
    pub open spec fn record(&self, ray: Ray, t: Scalar, a: Scalar, b: Scalar) -> HitRecord {
        let u = a.minus(self.a0).over(self.a1.minus(self.a0));
        let v = b.minus(self.b0).over(self.b1.minus(self.b0));
        if self.plane.spec_across(ray.dir).raw < 0 {
            HitRecord {
                p: ray.at(t),
                normal: self.plane.spec_axis(Scalar::one()),
                t,
                u,
                v,
                f: Face::Inward,
                mat: self.mat,
            }
        } else {
            HitRecord {
                p: ray.at(t),
                normal: self.plane.spec_axis(Scalar::one().negated()),
                t,
                u,
                v,
                f: Face::Outward,
                mat: self.mat,
            }
        }
    }

    pub open spec fn spec_hit(&self, ray: Ray, tmin: Scalar, tmax: Scalar) -> Option<HitRecord> {
        let t = self.crossing(ray);
        let a = self.plane.spec_first(ray.orig).plus(self.plane.spec_first(ray.dir).times(t));
        let b = self.plane.spec_second(ray.orig).plus(self.plane.spec_second(ray.dir).times(t));
        if self.plane.spec_across(ray.dir).raw != 0 && in_range(t, tmin, tmax) && self.covers(
            a,
            b,
        ) {
            Some(self.record(ray, t, a, b))
        } else {
            None
        }
    }

    /// Where `ray` crosses the rectangle between `tmin` and `tmax`. A ray
    /// parallel to the plane misses.
    pub fn hit(&self, ray: &Ray, tmin: Scalar, tmax: Scalar) -> (res: Option<HitRecord>)
        ensures
            res == self.spec_hit(*ray, tmin, tmax),
    {
        let d = self.plane.across(ray.dir);
        if d.raw == 0 {
            return None;
        }
        let t = self.k.minus(self.plane.across(ray.orig)).over(d);
        if !(tmin.raw < t.raw && t.raw < tmax.raw) {
            return None;
        }
        let a = self.plane.first(ray.orig).plus(self.plane.first(ray.dir).times(t));
        let b = self.plane.second(ray.orig).plus(self.plane.second(ray.dir).times(t));
        if a.raw < self.a0.raw || a.raw > self.a1.raw || b.raw < self.b0.raw || b.raw
            > self.b1.raw {
            return None;
        }
        let u = a.minus(self.a0).over(self.a1.minus(self.a0));
        let v = b.minus(self.b0).over(self.b1.minus(self.b0));
        if d.raw < 0 {
            Some(
                HitRecord {
                    p: ray.at(t),
                    normal: self.plane.axis(Scalar::one()),
                    t,
                    u,
                    v,
                    f: Face::Inward,
                    mat: self.mat,
                },
            )
        } else {
            Some(
                HitRecord {
                    p: ray.at(t),
                    normal: self.plane.axis(Scalar::one().negated()),
                    t,
                    u,
                    v,
                    f: Face::Outward,
                    mat: self.mat,
                },
            )
        }
    }
}

impl Plane {
    pub open spec fn spec_point(self, a: Scalar, b: Scalar, c: Scalar) -> Vec3 {
        match self {
            Plane::XY => Vec3(a, b, c),
            Plane::XZ => Vec3(a, c, b),
            Plane::YZ => Vec3(c, a, b),
        }
    }

    /// The point with coordinates `a` and `b` along the axes of the plane and
    /// `c` across it.
    #[verifier::when_used_as_spec(spec_point)]
    pub fn point(self, a: Scalar, b: Scalar, c: Scalar) -> (r: Vec3)
        ensures
            r == self.spec_point(a, b, c),
    {
        match self {
            Plane::XY => Vec3(a, b, c),
            Plane::XZ => Vec3(a, c, b),
            Plane::YZ => Vec3(c, a, b),
        }
    }
}

impl AxisRect {
    pub open spec fn spec_bounding_box(&self) -> Aabb {
        let thin = Scalar { raw: 100 };
        Aabb {
            min: self.plane.spec_point(self.a0, self.b0, self.k.minus(thin)),
            max: self.plane.spec_point(self.a1, self.b1, self.k.plus(thin)),
        }
    }

    /// The box round the rectangle. Across the plane it reaches 0.0001 each
    /// way, so that it is not flat.
    pub fn bounding_box(&self) -> (b: Aabb)
        ensures
            b == self.spec_bounding_box(),
    {
        let thin = Scalar { raw: 100 };
        Aabb {
            min: self.plane.point(self.a0, self.b0, self.k.minus(thin)),
            max: self.plane.point(self.a1, self.b1, self.k.plus(thin)),
        }
    }
}

} // verus!
