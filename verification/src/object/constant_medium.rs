//! Fog and smoke: a medium of constant density inside a boundary.

use crate::object::hittable::Hittable;
use crate::object::material::{Isotropic, MaterialObject};
use crate::object::record::{Face, HitRecord};
use crate::utils::elementary::{neg_ln, spec_neg_ln};
use crate::utils::ray::Ray;
use crate::utils::scalar::Scalar;
use crate::utils::vec3::Vec3;
use vstd::prelude::*;

verus! {

/// A homogeneous medium that fills `boundary`. A ray that passes through it
/// is scattered after a random distance whose mean is `1 / density`.
#[derive(Debug)]
pub struct ConstantMedium {
    pub boundary: Box<Hittable>,
    pub density: Scalar,
    pub phase: Isotropic,
}

impl ConstantMedium {
    /// The medium of the given density and colour inside `boundary`.
    pub fn new(boundary: Hittable, density: Scalar, phase: Isotropic) -> (m: ConstantMedium)
        ensures
            *m.boundary == boundary,
            m.density == density,
            m.phase == phase,
    {
        ConstantMedium { boundary: Box::new(boundary), density, phase }
    }

    /// The smallest step by which the search for the way out of the boundary
    /// starts behind the way in.
    pub open spec fn spec_step() -> Scalar {
        Scalar { raw: 100 }
    }

    /// The distance that a ray travels through the medium before it is
    /// scattered, for the draw `sample` from `[0, 1)`: `-ln(sample) / density`.
    pub open spec fn free_flight(&self, sample: Scalar) -> Scalar {
        spec_neg_ln(sample).over(self.density)
    }

    pub open spec fn spec_scatter_inside(
        &self,
        ray: Ray,
        tmin: Scalar,
        tmax: Scalar,
        t_in: Scalar,
        t_out: Scalar,
        sample: Scalar,
    ) -> Option<HitRecord> {
        let t1 = t_in.max(tmin);
        let t2 = t_out.min(tmax);
        if t1.raw >= t2.raw {
            None
        } else {
            let t1 = t1.max(Scalar::zero());
            let len = ray.dir.length();
            let inside = t2.minus(t1).times(len);
            let flight = self.free_flight(sample);
            if flight.raw > inside.raw {
                None
            } else {
                let t = t1.plus(flight.over(len));
                Some(
                    HitRecord {
                        p: ray.at(t),
                        normal: Vec3(Scalar::one(), Scalar::zero(), Scalar::zero()),
                        t,
                        u: Scalar::zero(),
                        v: Scalar::zero(),
                        f: Face::Inward,
                        mat: MaterialObject::Isotropic(self.phase),
                    },
                )
            }
        }
    }

    /// Where `ray` is scattered inside the medium, given that it enters the
    /// boundary at `t_in` and leaves it at `t_out`, for the draw `sample`.
    ///
    /// The stretch inside is cut to the range from `tmin` to `tmax` and to
    /// what lies ahead of the origin. The ray is scattered after its free
    /// flight, unless that is longer than the stretch. The normal of the
    /// record is arbitrary: the material of a medium does not read it.
    pub fn scatter_inside(
        &self,
        ray: &Ray,
        tmin: Scalar,
        tmax: Scalar,
        t_in: Scalar,
        t_out: Scalar,
        sample: Scalar,
    ) -> (res: Option<HitRecord>)
        ensures
            res == self.spec_scatter_inside(*ray, tmin, tmax, t_in, t_out, sample),
    {
        let t1 = t_in.max(tmin);
        let t2 = t_out.min(tmax);
        if t1.raw >= t2.raw {
            None
        } else {
            let t1 = t1.max(Scalar::zero());
            let len = ray.dir.length();
            let inside = t2.minus(t1).times(len);
            let flight = neg_ln(sample).over(self.density);
            if flight.raw > inside.raw {
                None
            } else {
                let t = t1.plus(flight.over(len));
                Some(
                    HitRecord {
                        p: ray.at(t),
                        normal: Vec3(Scalar::one(), Scalar::zero(), Scalar::zero()),
                        t,
                        u: Scalar::zero(),
                        v: Scalar::zero(),
                        f: Face::Inward,
                        mat: MaterialObject::Isotropic(self.phase),
                    },
                )
            }
        }
    }
}

} // verus!
