//! Random draws, and the points they are turned into.
//!
//! Each random function comes with a deterministic twin that takes the drawn
//! numbers as arguments and is specified exactly; the random function only
//! promises that its result is what the twin gives for some admissible draw.

use crate::utils::elementary::{cos, sin, spec_cos, spec_sin, TAU_RAW};
use crate::utils::scalar::{Scalar, SCALE};
use crate::utils::vec3::Vec3;
use vstd::prelude::*;

verus! {

/// Calls `rand::Rng::gen_range` on `rand::thread_rng()`.
///
/// Trusted: the result lies in `[lo, hi)`. Which number of the range comes
/// back is up to the generator, so nothing more is claimed. The generator
/// panics unless `lo < hi`, which the precondition demands.
#[verifier::external_body]
fn uniform_raw(lo: i64, hi: i64) -> (r: i64)
    requires
        lo < hi,
    ensures
        lo <= r < hi,
{
    rand::Rng::gen_range(&mut rand::thread_rng(), lo, hi)
}

/// A random scalar in `[lo, hi)`.
pub fn uniform(lo: Scalar, hi: Scalar) -> (r: Scalar)
    requires
        lo.raw < hi.raw,
    ensures
        lo.raw <= r.raw < hi.raw,
{
    Scalar { raw: uniform_raw(lo.raw, hi.raw) }
}

/// A random scalar in `[0, 1)`.
pub fn unit_interval() -> (r: Scalar)
    ensures
        0 <= r.raw < SCALE,
{
    Scalar { raw: uniform_raw(0, SCALE) }
}

/// `a` is an angle within one turn.
pub open spec fn is_angle(a: Scalar) -> bool {
    0 <= a.raw < TAU_RAW
}

/// `q` lies in `[0, 1)`.
pub open spec fn is_fraction(q: Scalar) -> bool {
    0 <= q.raw < SCALE
}

/// `z` lies in `[-1, 1)`.
pub open spec fn is_height(z: Scalar) -> bool {
    -SCALE <= z.raw < SCALE
}

/// A random angle within one turn.
pub fn random_angle() -> (a: Scalar)
    ensures
        is_angle(a),
{
    Scalar { raw: uniform_raw(0, TAU_RAW) }
}

pub open spec fn spec_unit_vector_from(a: Scalar, z: Scalar) -> Vec3 {
    let r = Scalar::one().minus(z.times(z)).sqrt();
    let v = Vec3(r.times(spec_cos(a)), r.times(spec_sin(a)), z);
    if v == Vec3::spec_zero() {
        Vec3(Scalar::zero(), Scalar::zero(), Scalar::one())
    } else {
        v.spec_unit_vector()
    }
}

/// `v` has unit length within tolerance: no component lies beyond 1, and the
/// square of the length lies between 0.999984 and 1.000321.
pub open spec fn is_nearly_unit(v: Vec3) -> bool {
    &&& -SCALE <= v.0.raw <= SCALE
    &&& -SCALE <= v.1.raw <= SCALE
    &&& -SCALE <= v.2.raw <= SCALE
    &&& SCALE - 16 <= v.spec_length_square().raw <= SCALE + 321
}

/// The point of the unit sphere at height `z` and longitude `a`: the unit
/// vector along `(r cos a, r sin a, z)` with `r = sqrt(1 - z^2)`. Should
/// rounding leave nothing of that vector, the point is the pole `(0, 0, 1)`.
#[verifier::when_used_as_spec(spec_unit_vector_from)]
pub fn unit_vector_from(a: Scalar, z: Scalar) -> (v: Vec3)
    ensures
        v == spec_unit_vector_from(a, z),
        is_nearly_unit(v),
{
    proof {
        lemma_unit_vector_from_is_unit(a, z);
    }
    let r = Scalar::one().minus(z.times(z)).sqrt();
    let v = Vec3(r.times(cos(a)), r.times(sin(a)), z);
    if v.0.raw == 0 && v.1.raw == 0 && v.2.raw == 0 {
        Vec3(Scalar::zero(), Scalar::zero(), Scalar::one())
    } else {
        v.unit_vector()
    }
}

/// The point at any longitude and height has unit length within tolerance.
pub proof fn lemma_unit_vector_from_is_unit(a: Scalar, z: Scalar)
    ensures
        is_nearly_unit(spec_unit_vector_from(a, z)),
{
    let r = Scalar::one().minus(z.times(z)).sqrt();
    let v = Vec3(r.times(spec_cos(a)), r.times(spec_sin(a)), z);
    if v == Vec3::spec_zero() {
        Scalar::lemma_times_one(Scalar::spec_one());
        Scalar::lemma_times_zero(Scalar::spec_zero());
    } else {
        Vec3::lemma_unit_vector_has_unit_length(v);
    }
}

/// Whatever `rand_unit_vector` may return has unit length within tolerance.
pub proof fn lemma_unit_sample_is_unit(v: Vec3)
    requires
        is_unit_sample(v),
    ensures
        is_nearly_unit(v),
{
    let (a, z) = choose|a: Scalar, z: Scalar|
        is_angle(a) && is_height(z) && v == #[trigger] spec_unit_vector_from(a, z);
    lemma_unit_vector_from_is_unit(a, z);
}

/// `v` is a point that `rand_unit_vector` may return.
pub open spec fn is_unit_sample(v: Vec3) -> bool {
    exists|a: Scalar, z: Scalar|
        is_angle(a) && is_height(z) && v == #[trigger] spec_unit_vector_from(a, z)
}

/// A random direction, uniform over the sphere: a uniform longitude and a
/// uniform height.
pub fn rand_unit_vector() -> (v: Vec3)
    ensures
        is_unit_sample(v),
        is_nearly_unit(v),
{
    let a = random_angle();
    let z = Scalar { raw: uniform_raw(-SCALE, SCALE) };
    unit_vector_from(a, z)
}

pub open spec fn spec_disk_point_from(a: Scalar, q: Scalar) -> Vec3 {
    let r = q.sqrt();
    Vec3(r.times(spec_cos(a)), r.times(spec_sin(a)), Scalar::zero())
}

/// The point of the unit disk at angle `a` whose distance from the centre is
/// `sqrt(q)`, so that a uniform `q` spreads the points evenly over the area.
#[verifier::when_used_as_spec(spec_disk_point_from)]
pub fn disk_point_from(a: Scalar, q: Scalar) -> (v: Vec3)
    ensures
        v == spec_disk_point_from(a, q),
{
    let r = q.sqrt();
    Vec3(r.times(cos(a)), r.times(sin(a)), Scalar::zero())
}

/// `v` is a point that `random_in_unit_disk` may return.
pub open spec fn is_disk_sample(v: Vec3) -> bool {
    exists|a: Scalar, q: Scalar|
        is_angle(a) && is_fraction(q) && v == #[trigger] spec_disk_point_from(a, q)
}

/// A random point of the unit disk in the plane `z = 0`.
pub fn random_in_unit_disk() -> (v: Vec3)
    ensures
        is_disk_sample(v),
{
    let a = random_angle();
    let q = unit_interval();
    disk_point_from(a, q)
}

impl Vec3 {
    /// `v` is a vector that `Vec3::random(lo, hi)` may return.
    pub open spec fn within(self, lo: Scalar, hi: Scalar) -> bool {
        &&& lo.raw <= self.0.raw < hi.raw
        &&& lo.raw <= self.1.raw < hi.raw
        &&& lo.raw <= self.2.raw < hi.raw
    }

    /// A vector whose components are independent random scalars in `[lo, hi)`.
    pub fn random(lo: Scalar, hi: Scalar) -> (v: Vec3)
        requires
            lo.raw < hi.raw,
        ensures
            v.within(lo, hi),
    {
        let x = uniform(lo, hi);
        let y = uniform(lo, hi);
        let z = uniform(lo, hi);
        Vec3(x, y, z)
    }
}

} // verus!
