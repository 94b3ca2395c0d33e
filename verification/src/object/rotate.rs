//! Objects turned about the vertical axis.

use crate::object::aabb::Aabb;
use crate::object::hittable::Hittable;
use crate::object::record::HitRecord;
use crate::utils::elementary::{cos, sin, spec_cos, spec_sin, spec_to_radians, to_radians};
use crate::utils::ray::Ray;
use crate::utils::scalar::Scalar;
use crate::utils::vec3::Vec3;
use vstd::prelude::*;

verus! {

/// The object `inner`, turned about the y axis by the angle whose sine and
/// cosine are kept here.
#[derive(Debug)]
pub struct RotateY {
    pub inner: Box<Hittable>,
    pub sin_theta: Scalar,
    pub cos_theta: Scalar,
}

impl RotateY {
    /// `inner` turned by `degrees` about the y axis. Sine and cosine are
    /// computed here, once.
    pub fn new(inner: Hittable, degrees: Scalar) -> (r: RotateY)
        ensures
            *r.inner == inner,
            r.sin_theta == spec_sin(spec_to_radians(degrees)),
            r.cos_theta == spec_cos(spec_to_radians(degrees)),
    {
        let theta = to_radians(degrees);
        RotateY { inner: Box::new(inner), sin_theta: sin(theta), cos_theta: cos(theta) }
    }

    pub open spec fn spec_to_local(&self, v: Vec3) -> Vec3 {
        Vec3(
            self.cos_theta.times(v.0).minus(self.sin_theta.times(v.2)),
            v.1,
            self.sin_theta.times(v.0).plus(self.cos_theta.times(v.2)),
        )
    }

    /// The vector `v` of the scene, as the turned object sees it.
    #[verifier::when_used_as_spec(spec_to_local)]
    pub fn to_local(&self, v: Vec3) -> (r: Vec3)
        ensures
            r == self.spec_to_local(v),
    {
        Vec3(
            self.cos_theta.times(v.0).minus(self.sin_theta.times(v.2)),
            v.1,
            self.sin_theta.times(v.0).plus(self.cos_theta.times(v.2)),
        )
    }

    pub open spec fn spec_to_world(&self, v: Vec3) -> Vec3 {
        Vec3(
            self.cos_theta.times(v.0).plus(self.sin_theta.times(v.2)),
            v.1,
            self.cos_theta.times(v.2).minus(self.sin_theta.times(v.0)),
        )
    }

    /// The vector `v` of the turned object, as the scene sees it.
    #[verifier::when_used_as_spec(spec_to_world)]
    pub fn to_world(&self, v: Vec3) -> (r: Vec3)
        ensures
            r == self.spec_to_world(v),
    {
        Vec3(
            self.cos_theta.times(v.0).plus(self.sin_theta.times(v.2)),
            v.1,
            self.cos_theta.times(v.2).minus(self.sin_theta.times(v.0)),
        )
    }

    pub open spec fn spec_local_ray(&self, ray: Ray) -> Ray {
        Ray { orig: self.spec_to_local(ray.orig), dir: self.spec_to_local(ray.dir), t: ray.t }
    }

    /// The ray `ray` of the scene, as the turned object sees it.
    pub fn local_ray(&self, ray: &Ray) -> (r: Ray)
        ensures
            r == self.spec_local_ray(*ray),
    {
        Ray { orig: self.to_local(ray.orig), dir: self.to_local(ray.dir), t: ray.t }
    }

    pub open spec fn spec_world_record(&self, h: HitRecord) -> HitRecord {
        HitRecord {
            p: self.spec_to_world(h.p),
            normal: self.spec_to_world(h.normal),
            t: h.t,
            u: h.u,
            v: h.v,
            f: h.f,
            mat: h.mat,
        }
    }

    /// The hit `h` on the turned object, as the scene sees it: point and
    /// normal are turned back, the rest is kept.
    #[verifier::when_used_as_spec(spec_world_record)]
    pub fn world_record(&self, h: HitRecord) -> (r: HitRecord)
        ensures
            r == self.spec_world_record(h),
    {
        HitRecord {
            p: self.to_world(h.p),
            normal: self.to_world(h.normal),
            t: h.t,
            u: h.u,
            v: h.v,
            f: h.f,
            mat: h.mat,
        }
    }
}

impl RotateY {
    pub open spec fn spec_turned_box(&self, b: Aabb) -> Aabb {
        let c0 = self.spec_to_world(Vec3(b.min.0, b.min.1, b.min.2));
        let c1 = self.spec_to_world(Vec3(b.max.0, b.min.1, b.min.2));
        let c2 = self.spec_to_world(Vec3(b.min.0, b.max.1, b.max.2));
        let c3 = self.spec_to_world(Vec3(b.max.0, b.max.1, b.max.2));
        Aabb {
            min: c0.spec_lower(c1).spec_lower(c2.spec_lower(c3)),
            max: c0.spec_upper(c1).spec_upper(c2.spec_upper(c3)),
        }
    }

    /// The box round the box `b` of the turned object, as the scene sees it:
    /// the box round the four corners of `b` in the ground plan, turned back,
    /// from the bottom of `b` to its top.
    #[verifier::when_used_as_spec(spec_turned_box)]
    pub fn turned_box(&self, b: Aabb) -> (r: Aabb)
        ensures
            r == self.spec_turned_box(b),
    {
        let c0 = self.to_world(Vec3(b.min.0, b.min.1, b.min.2));
        let c1 = self.to_world(Vec3(b.max.0, b.min.1, b.min.2));
        let c2 = self.to_world(Vec3(b.min.0, b.max.1, b.max.2));
        let c3 = self.to_world(Vec3(b.max.0, b.max.1, b.max.2));
        Aabb {
            min: c0.lower(c1).lower(c2.lower(c3)),
            max: c0.upper(c1).upper(c2.upper(c3)),
        }
    }
}

} // verus!
