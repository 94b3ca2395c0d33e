//! Spheres, at rest and in motion.

use crate::object::aabb::Aabb;
use crate::object::material::MaterialObject;
use crate::object::record::{Face, HitRecord};
use crate::utils::ray::Ray;
use crate::utils::scalar::Scalar;
use crate::utils::vec3::Vec3;
use vstd::prelude::*;

verus! {

pub open spec fn spec_sphere_roots(center: Vec3, radius: Scalar, ray: Ray) -> Option<
    (Scalar, Scalar),
> {
    let oc = ray.orig.minus(center);
    let a = ray.dir.length_square();
    let half_b = oc.dot(ray.dir);
    let c = oc.length_square().minus(radius.times(radius));
    let disc = half_b.times(half_b).minus(a.times(c));
    if a.raw <= 0 || disc.raw < 0 {
        None
    } else {
        let sq = disc.sqrt();
        Some((half_b.negated().minus(sq).over(a), half_b.negated().plus(sq).over(a)))
    }
}

/// The two parameters at which the line of `ray` crosses the sphere, the one
/// with the minus sign first: the solutions of `|orig + t dir - center|^2 =
/// radius^2`. `None` when the line misses the sphere or `ray` has no
/// direction.
pub fn sphere_roots(center: Vec3, radius: Scalar, ray: &Ray) -> (r: Option<(Scalar, Scalar)>)
    ensures
        r == spec_sphere_roots(center, radius, *ray),
{
    let oc = ray.orig.minus(center);
    let a = ray.dir.length_square();
    let half_b = oc.dot(ray.dir);
    let c = oc.length_square().minus(radius.times(radius));
    let disc = half_b.times(half_b).minus(a.times(c));
    if a.raw <= 0 || disc.raw < 0 {
        None
    } else {
        let sq = disc.sqrt();
        Some((half_b.negated().minus(sq).over(a), half_b.negated().plus(sq).over(a)))
    }
}

pub open spec fn spec_sphere_point(
    center: Vec3,
    radius: Scalar,
    mat: MaterialObject,
    ray: Ray,
    t: Scalar,
) -> HitRecord {
    let p = ray.at(t);
    let outward = p.minus(center).shrunk(radius);
    if ray.dir.dot(outward).raw < 0 {
        HitRecord {
            p,
            normal: outward,
            t,
            u: Scalar::zero(),
            v: Scalar::zero(),
            f: Face::Inward,
            mat,
        }
    } else {
        HitRecord {
            p,
            normal: outward.negated(),
            t,
            u: Scalar::zero(),
            v: Scalar::zero(),
            f: Face::Outward,
            mat,
        }
    }
}

/// The record of the point at parameter `t` of `ray` on the sphere: the
/// normal is `(p - center) / radius`, turned against the ray.
pub fn sphere_point(center: Vec3, radius: Scalar, mat: MaterialObject, ray: &Ray, t: Scalar) -> (h:
    HitRecord)
    ensures
        h == spec_sphere_point(center, radius, mat, *ray, t),
{
    let p = ray.at(t);
    let outward = p.minus(center).shrunk(radius);
    if ray.dir.dot(outward).raw < 0 {
        HitRecord {
            p,
            normal: outward,
            t,
            u: Scalar::zero(),
            v: Scalar::zero(),
            f: Face::Inward,
            mat,
        }
    } else {
        HitRecord {
            p,
            normal: outward.negated(),
            t,
            u: Scalar::zero(),
            v: Scalar::zero(),
            f: Face::Outward,
            mat,
        }
    }
}

/// `t` lies strictly between `tmin` and `tmax`.
pub open spec fn in_range(t: Scalar, tmin: Scalar, tmax: Scalar) -> bool {
    tmin.raw < t.raw && t.raw < tmax.raw
}

pub open spec fn spec_sphere_hit(
    center: Vec3,
    radius: Scalar,
    mat: MaterialObject,
    ray: Ray,
    tmin: Scalar,
    tmax: Scalar,
) -> Option<HitRecord> {
    match spec_sphere_roots(center, radius, ray) {
        None => None,
        Some((t1, t2)) => if in_range(t1, tmin, tmax) {
            Some(spec_sphere_point(center, radius, mat, ray, t1))
        } else if in_range(t2, tmin, tmax) {
            Some(spec_sphere_point(center, radius, mat, ray, t2))
        } else {
            None
        },
    }
}

/// Where `ray` meets the sphere between `tmin` and `tmax`: at the first
/// crossing if it lies in the range, else at the second if that one does.
pub fn sphere_hit(
    center: Vec3,
    radius: Scalar,
    mat: MaterialObject,
    ray: &Ray,
    tmin: Scalar,
    tmax: Scalar,
) -> (res: Option<HitRecord>)
    ensures
        res == spec_sphere_hit(center, radius, mat, *ray, tmin, tmax),
{
    match sphere_roots(center, radius, ray) {
        None => None,
        Some((t1, t2)) => {
            if tmin.raw < t1.raw && t1.raw < tmax.raw {
                Some(sphere_point(center, radius, mat, ray, t1))
            } else if tmin.raw < t2.raw && t2.raw < tmax.raw {
                Some(sphere_point(center, radius, mat, ray, t2))
            } else {
                None
            }
        },
    }
}

/// A sphere at rest.
#[derive(Clone, Copy, Debug)]
pub struct Sphere {
    pub center: Vec3,
    pub radius: Scalar,
    pub mat: MaterialObject,
}

impl Sphere {
    /// The sphere round `center`.
    pub fn new(center: Vec3, radius: Scalar, mat: MaterialObject) -> (s: Sphere)
        ensures
            s.center == center,
            s.radius == radius,
            s.mat == mat,
    {
        Sphere { center, radius, mat }
    }

    pub open spec fn spec_hit(&self, ray: Ray, tmin: Scalar, tmax: Scalar) -> Option<HitRecord> {
        spec_sphere_hit(self.center, self.radius, self.mat, ray, tmin, tmax)
    }

    /// The nearest point between `tmin` and `tmax` at which `ray` crosses the
    /// sphere.
    pub fn hit(&self, ray: &Ray, tmin: Scalar, tmax: Scalar) -> (res: Option<HitRecord>)
        ensures
            res == self.spec_hit(*ray, tmin, tmax),
            res matches Some(h) ==> {
                let outward = h.p.minus(self.center).shrunk(self.radius);
                &&& in_range(h.t, tmin, tmax)
                &&& h.mat == self.mat
                &&& h.p == ray.at(h.t)
                &&& h.f == Face::Inward ==> h.normal == outward
                &&& h.f == Face::Outward ==> h.normal == outward.negated()
                &&& (h.f == Face::Inward) == (ray.dir.dot(outward).raw < 0)
            },
    {
        sphere_hit(self.center, self.radius, self.mat, ray, tmin, tmax)
    }
}

/// A sphere that moves in a straight line: it is at `center0` at `time0` and
/// at `center1` at `time1`.
#[derive(Clone, Copy, Debug)]
pub struct BouncingSphere {
    pub center0: Vec3,
    pub center1: Vec3,
    pub time0: Scalar,
    pub time1: Scalar,
    pub radius: Scalar,
    pub mat: MaterialObject,
}

impl BouncingSphere {
    /// The sphere that moves from `center0` at `time0` to `center1` at
    /// `time1`.
    pub fn new(
        center0: Vec3,
        center1: Vec3,
        time0: Scalar,
        time1: Scalar,
        radius: Scalar,
        mat: MaterialObject,
    ) -> (s: BouncingSphere)
        ensures
            s == (BouncingSphere { center0, center1, time0, time1, radius, mat }),
    {
        BouncingSphere { center0, center1, time0, time1, radius, mat }
    }

    pub open spec fn spec_rising(
        center: Vec3,
        radius: Scalar,
        height: Scalar,
        time0: Scalar,
        time1: Scalar,
        mat: MaterialObject,
    ) -> BouncingSphere {
        BouncingSphere {
            center0: center,
            center1: center.plus(Vec3(Scalar::zero(), height, Scalar::zero())),
            time0,
            time1,
            radius,
            mat,
        }
    }

    /// The sphere that rises by `height` from `center` between `time0` and
    /// `time1`.
    #[verifier::when_used_as_spec(spec_rising)]
    pub fn rising(
        center: Vec3,
        radius: Scalar,
        height: Scalar,
        time0: Scalar,
        time1: Scalar,
        mat: MaterialObject,
    ) -> (s: BouncingSphere)
        ensures
            s == Self::spec_rising(center, radius, height, time0, time1, mat),
    {
        BouncingSphere {
            center0: center,
            center1: center.plus(Vec3(Scalar::zero(), height, Scalar::zero())),
            time0,
            time1,
            radius,
            mat,
        }
    }

    pub open spec fn spec_center_at(&self, time: Scalar) -> Vec3 {
        self.center0.plus(
            self.center1.minus(self.center0).scaled(
                time.minus(self.time0).over(self.time1.minus(self.time0)),
            ),
        )
    }

    /// Where the centre is at `time`: on the line through the two positions,
    /// at the share of the way that `time` has covered of the time window.
    #[verifier::when_used_as_spec(spec_center_at)]
    pub fn center_at(&self, time: Scalar) -> (c: Vec3)
        ensures
            c == self.spec_center_at(time),
    {
        self.center0.plus(
            self.center1.minus(self.center0).scaled(
                time.minus(self.time0).over(self.time1.minus(self.time0)),
            ),
        )
    }

    pub open spec fn spec_hit(&self, ray: Ray, tmin: Scalar, tmax: Scalar) -> Option<HitRecord> {
        spec_sphere_hit(self.spec_center_at(ray.t), self.radius, self.mat, ray, tmin, tmax)
    }

    /// The nearest point between `tmin` and `tmax` at which `ray` crosses the
    /// sphere as it stands at the time of the ray.
    pub fn hit(&self, ray: &Ray, tmin: Scalar, tmax: Scalar) -> (res: Option<HitRecord>)
        ensures
            res == self.spec_hit(*ray, tmin, tmax),
    {
        sphere_hit(self.center_at(ray.time()), self.radius, self.mat, ray, tmin, tmax)
    }
}

/// The crossing with the minus sign comes first.
pub proof fn lemma_sphere_roots_ordered(center: Vec3, radius: Scalar, ray: Ray)
    ensures
        spec_sphere_roots(center, radius, ray) matches Some((t1, t2)) ==> t1.raw <= t2.raw,
{
    let oc = ray.orig.minus(center);
    let a = ray.dir.length_square();
    let half_b = oc.dot(ray.dir);
    let c = oc.length_square().minus(radius.times(radius));
    let disc = half_b.times(half_b).minus(a.times(c));
    if !(a.raw <= 0 || disc.raw < 0) {
        let sq = disc.sqrt();
        Scalar::lemma_sqrt_bounds(disc);
        Scalar::lemma_over_monotone(half_b.negated().minus(sq), half_b.negated().plus(sq), a);
    }
}

/// Asking a sphere for hits below a smaller bound only hides the hit at that
/// bound or beyond.
pub proof fn lemma_sphere_hit_restricts(
    center: Vec3,
    radius: Scalar,
    mat: MaterialObject,
    ray: Ray,
    tmin: Scalar,
    tmax: Scalar,
    b: Scalar,
)
    requires
        b.raw <= tmax.raw,
    ensures
        spec_sphere_hit(center, radius, mat, ray, tmin, b) == crate::object::nearest::restricted(
            spec_sphere_hit(center, radius, mat, ray, tmin, tmax),
            b,
        ),
{
    lemma_sphere_roots_ordered(center, radius, ray);
}

pub open spec fn spec_sphere_box(center: Vec3, radius: Scalar) -> Aabb {
    let r = Vec3(radius, radius, radius);
    Aabb { min: center.minus(r), max: center.plus(r) }
}

/// The box round the sphere: from the centre, the radius each way.
#[verifier::when_used_as_spec(spec_sphere_box)]
pub fn sphere_box(center: Vec3, radius: Scalar) -> (b: Aabb)
    ensures
        b == spec_sphere_box(center, radius),
{
    let r = Vec3(radius, radius, radius);
    Aabb { min: center.minus(r), max: center.plus(r) }
}

impl Sphere {
    pub open spec fn spec_bounding_box(&self) -> Aabb {
        spec_sphere_box(self.center, self.radius)
    }

    /// The box round the sphere.
    pub fn bounding_box(&self) -> (b: Aabb)
        ensures
            b == self.spec_bounding_box(),
    {
        sphere_box(self.center, self.radius)
    }
}

impl BouncingSphere {
    pub open spec fn spec_bounding_box(&self) -> Aabb {
        spec_sphere_box(self.center0, self.radius).spec_union(
            spec_sphere_box(self.center1, self.radius),
        )
    }

    /// The box round the sphere at both ends of its way.
    pub fn bounding_box(&self) -> (b: Aabb)
        ensures
            b == self.spec_bounding_box(),
    {
        sphere_box(self.center0, self.radius).union(sphere_box(self.center1, self.radius))
    }
}

} // verus!
