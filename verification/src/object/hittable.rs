//! Everything a ray can hit.

use crate::object::aabb::Aabb;
use crate::object::constant_medium::ConstantMedium;
use crate::object::cube::Cube;
use crate::object::nearest::{lemma_nearest_of_comes_from, restricted};
use crate::object::record::HitRecord;
use crate::object::rect::AxisRect;
use crate::object::rotate::RotateY;
use crate::object::sphere::{lemma_sphere_hit_restricts, BouncingSphere, Sphere};
use crate::utils::ray::Ray;
use crate::utils::sampling::{is_fraction, unit_interval};
use crate::utils::scalar::Scalar;
use vstd::prelude::*;

verus! {

/// An object of a scene.
#[derive(Debug)]
pub enum Hittable {
    Sphere(Sphere),
    BouncingSphere(BouncingSphere),
    Rect(AxisRect),
    Cube(Cube),
    RotateY(RotateY),
    ConstantMedium(ConstantMedium),
}

impl Hittable {
    /// The hit `h` found in the frame of the turned object `o`, as the scene
    /// sees it.
    pub open spec fn turned_back(o: RotateY, found: Option<HitRecord>) -> Option<HitRecord> {
        match found {
            Some(h) => Some(o.spec_world_record(h)),
            None => None,
        }
    }

    /// Where `ray` hits the object between `tmin` and `tmax`, if it does.
    /// `sample` is the draw from `[0, 1)` that a medium consumes; a surface
    /// does not read it.
    pub open spec fn spec_hit(&self, ray: Ray, tmin: Scalar, tmax: Scalar, sample: Scalar) -> Option<
        HitRecord,
    >
        decreases self,
    {
        match self {
            Hittable::Sphere(o) => o.spec_hit(ray, tmin, tmax),
            Hittable::BouncingSphere(o) => o.spec_hit(ray, tmin, tmax),
            Hittable::Rect(o) => o.spec_hit(ray, tmin, tmax),
            Hittable::Cube(o) => o.spec_hit(ray, tmin, tmax),
            Hittable::RotateY(o) => Self::turned_back(
                *o,
                o.inner.spec_hit(o.spec_local_ray(ray), tmin, tmax, sample),
            ),
            Hittable::ConstantMedium(o) => {
                let far = Scalar { raw: i64::MAX };
                match o.boundary.spec_hit(ray, Scalar { raw: i64::MIN }, far, sample) {
                    None => None,
                    Some(h1) => match o.boundary.spec_hit(
                        ray,
                        h1.t.plus(ConstantMedium::spec_step()),
                        far,
                        sample,
                    ) {
                        None => None,
                        Some(h2) => o.spec_scatter_inside(ray, tmin, tmax, h1.t, h2.t, sample),
                    },
                }
            },
        }
    }

    /// Tests `ray` against the object between `tmin` and `tmax`, with the
    /// draw `sample` for a medium.
    ///
    /// A surface reports its nearest crossing in the range. A turned object
    /// is tested in its own frame. A medium finds where the ray enters and
    /// leaves its boundary and scatters the ray in between.
    pub fn hit_with(&self, ray: &Ray, tmin: Scalar, tmax: Scalar, sample: Scalar) -> (res: Option<
        HitRecord,
    >)
        ensures
            res == self.spec_hit(*ray, tmin, tmax, sample),
        decreases self,
    {
        match self {
            Hittable::Sphere(o) => o.hit(ray, tmin, tmax),
            Hittable::BouncingSphere(o) => o.hit(ray, tmin, tmax),
            Hittable::Rect(o) => o.hit(ray, tmin, tmax),
            Hittable::Cube(o) => o.hit(ray, tmin, tmax),
            Hittable::RotateY(o) => {
                let local = o.local_ray(ray);
                match o.inner.hit_with(&local, tmin, tmax, sample) {
                    Some(h) => Some(o.world_record(h)),
                    None => None,
                }
            },
            Hittable::ConstantMedium(o) => {
                let far = Scalar { raw: i64::MAX };
                match o.boundary.hit_with(ray, Scalar { raw: i64::MIN }, far, sample) {
                    None => None,
                    Some(h1) => match o.boundary.hit_with(
                        ray,
                        h1.t.plus(Scalar { raw: 100 }),
                        far,
                        sample,
                    ) {
                        None => None,
                        Some(h2) => o.scatter_inside(ray, tmin, tmax, h1.t, h2.t, sample),
                    },
                }
            },
        }
    }

    /// The object holds a medium, so that its hits depend on a draw.
    pub open spec fn spec_is_random(&self) -> bool
        decreases self,
    {
        match self {
            Hittable::RotateY(o) => o.inner.spec_is_random(),
            Hittable::ConstantMedium(o) => true,
            _ => false,
        }
    }

    /// Tells whether the object holds a medium.
    pub fn is_random(&self) -> (r: bool)
        ensures
            r == self.spec_is_random(),
        decreases self,
    {
        match self {
            Hittable::RotateY(o) => o.inner.is_random(),
            Hittable::ConstantMedium(o) => true,
            _ => false,
        }
    }

    /// Tests `ray` against the object between `tmin` and `tmax`. A number is
    /// drawn only for an object that holds a medium.
    pub fn hit(&self, ray: &Ray, tmin: Scalar, tmax: Scalar) -> (res: Option<HitRecord>)
        ensures
            exists|sample: Scalar|
                is_fraction(sample) && res == #[trigger] self.spec_hit(*ray, tmin, tmax, sample),
            !self.spec_is_random() ==> forall|sample: Scalar|
                res == #[trigger] self.spec_hit(*ray, tmin, tmax, sample),
    {
        let sample = if self.is_random() {
            unit_interval()
        } else {
            Scalar::zero()
        };
        let res = self.hit_with(ray, tmin, tmax, sample);
        proof {
            if !self.spec_is_random() {
                assert forall|other: Scalar|
                    res == #[trigger] self.spec_hit(*ray, tmin, tmax, other) by {
                    self.lemma_surface_ignores_sample(*ray, tmin, tmax, sample, other);
                }
            }
        }
        res
    }
}

impl Hittable {
    /// A surface does not read the draw.
    pub proof fn lemma_surface_ignores_sample(
        &self,
        ray: Ray,
        tmin: Scalar,
        tmax: Scalar,
        s1: Scalar,
        s2: Scalar,
    )
        requires
            !self.spec_is_random(),
        ensures
            self.spec_hit(ray, tmin, tmax, s1) == self.spec_hit(ray, tmin, tmax, s2),
        decreases self,
    {
        match self {
            Hittable::RotateY(o) => {
                o.inner.lemma_surface_ignores_sample(o.spec_local_ray(ray), tmin, tmax, s1, s2);
            },
            _ => {},
        }
    }

    /// Asking a surface for hits below a smaller bound only hides the hit at
    /// that bound or beyond.
    pub proof fn lemma_surface_restricts(
        &self,
        ray: Ray,
        tmin: Scalar,
        tmax: Scalar,
        b: Scalar,
        sample: Scalar,
    )
        requires
            !self.spec_is_random(),
            b.raw <= tmax.raw,
        ensures
            self.spec_hit(ray, tmin, b, sample) == restricted(
                self.spec_hit(ray, tmin, tmax, sample),
                b,
            ),
        decreases self,
    {
        match self {
            Hittable::Sphere(o) => {
                lemma_sphere_hit_restricts(o.center, o.radius, o.mat, ray, tmin, tmax, b);
            },
            Hittable::BouncingSphere(o) => {
                lemma_sphere_hit_restricts(
                    o.spec_center_at(ray.t),
                    o.radius,
                    o.mat,
                    ray,
                    tmin,
                    tmax,
                    b,
                );
            },
            Hittable::Rect(o) => {},
            Hittable::Cube(o) => {
                o.lemma_hit_restricts(ray, tmin, tmax, b);
            },
            Hittable::RotateY(o) => {
                o.inner.lemma_surface_restricts(o.spec_local_ray(ray), tmin, tmax, b, sample);
            },
            Hittable::ConstantMedium(o) => {},
        }
    }
}

impl Hittable {
    /// No surface of the object sends out light of its own.
    pub open spec fn emits_nothing(&self) -> bool
        decreases self,
    {
        match self {
            Hittable::Sphere(o) => o.mat.emits_nothing(),
            Hittable::BouncingSphere(o) => o.mat.emits_nothing(),
            Hittable::Rect(o) => o.mat.emits_nothing(),
            Hittable::Cube(o) => o.mat.emits_nothing(),
            Hittable::RotateY(o) => o.inner.emits_nothing(),
            Hittable::ConstantMedium(o) => true,
        }
    }

    /// A hit on an object that sends out no light reports a material that
    /// sends out none.
    pub proof fn lemma_hit_material(&self, ray: Ray, tmin: Scalar, tmax: Scalar, sample: Scalar)
        requires
            self.emits_nothing(),
        ensures
            self.spec_hit(ray, tmin, tmax, sample) matches Some(h) ==> h.mat.emits_nothing(),
        decreases self,
    {
        match self {
            Hittable::Cube(o) => {
                let hits = o.side_hits(ray, tmin);
                lemma_nearest_of_comes_from(hits, 6, tmax);
                if let Some(h) = o.spec_hit(ray, tmin, tmax) {
                    let (i, x) = choose|i: int, x: Scalar|
                        0 <= i < 6 && #[trigger] hits(i, x) == Some(h);
                    assert(o.spec_side(i).spec_hit(ray, tmin, x) == Some(h));
                }
            },
            Hittable::RotateY(o) => {
                o.inner.lemma_hit_material(o.spec_local_ray(ray), tmin, tmax, sample);
            },
            _ => {},
        }
    }
}

impl Hittable {
    pub open spec fn spec_bounding_box(&self) -> Aabb
        decreases self,
    {
        match self {
            Hittable::Sphere(o) => o.spec_bounding_box(),
            Hittable::BouncingSphere(o) => o.spec_bounding_box(),
            Hittable::Rect(o) => o.spec_bounding_box(),
            Hittable::Cube(o) => Aabb { min: o.min, max: o.max },
            Hittable::RotateY(o) => o.spec_turned_box(o.inner.spec_bounding_box()),
            Hittable::ConstantMedium(o) => o.boundary.spec_bounding_box(),
        }
    }

    /// A box that is meant to hold the object: for a sphere, the radius each
    /// way from the centre; for a moving sphere, the boxes at both ends of
    /// its way; for a rectangle, a thin slab; for a box, itself; for a turned
    /// object, the box round its turned box; for a medium, the box of its
    /// boundary.
    pub fn bounding_box(&self) -> (b: Aabb)
        ensures
            b == self.spec_bounding_box(),
        decreases self,
    {
        match self {
            Hittable::Sphere(o) => o.bounding_box(),
            Hittable::BouncingSphere(o) => o.bounding_box(),
            Hittable::Rect(o) => o.bounding_box(),
            Hittable::Cube(o) => Aabb { min: o.min, max: o.max },
            Hittable::RotateY(o) => o.turned_box(o.inner.bounding_box()),
            Hittable::ConstantMedium(o) => o.boundary.bounding_box(),
        }
    }
}

} // verus!
