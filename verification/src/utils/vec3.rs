//! Three-component vectors, used as points, directions and colours.

use crate::utils::scalar::{magnitude, Scalar};
use vstd::prelude::*;

verus! {

/// A triple of scalars. Sums, differences and products by a scalar go
/// component by component; `dot`, `cross` and `length` do not.
#[derive(Clone, Copy, Debug, PartialEq, Eq, Structural)]
pub struct Vec3(pub Scalar, pub Scalar, pub Scalar);

/// A colour: red, green and blue, each from 0 (none) to 1 (full).
pub type Color = Vec3;

impl Vec3 {
    /// The vector with the given components.
    pub fn new(x: Scalar, y: Scalar, z: Scalar) -> (r: Vec3)
        ensures
            r == Vec3(x, y, z),
    {
        Vec3(x, y, z)
    }

    /// The vector whose components are the whole numbers `x`, `y`, `z`.
    pub fn from_ints(x: i64, y: i64, z: i64) -> (r: Vec3)
        ensures
            r == Vec3(Scalar::from_int(x), Scalar::from_int(y), Scalar::from_int(z)),
    {
        Vec3(Scalar::from_int(x), Scalar::from_int(y), Scalar::from_int(z))
    }

    pub open spec fn spec_zero() -> Vec3 {
        Vec3(Scalar::zero(), Scalar::zero(), Scalar::zero())
    }

    /// The origin; as a colour, black.
    #[verifier::when_used_as_spec(spec_zero)]
    pub fn zero() -> (r: Vec3)
        ensures
            r == Self::spec_zero(),
    {
        Vec3(Scalar::zero(), Scalar::zero(), Scalar::zero())
    }

    pub open spec fn spec_one() -> Vec3 {
        Vec3(Scalar::one(), Scalar::one(), Scalar::one())
    }

    /// The vector (1, 1, 1); as a colour, white.
    #[verifier::when_used_as_spec(spec_one)]
    pub fn one() -> (r: Vec3)
        ensures
            r == Self::spec_one(),
    {
        Vec3(Scalar::one(), Scalar::one(), Scalar::one())
    }

    /// First component.
    pub fn x(&self) -> (r: Scalar)
        ensures
            r == self.0,
    {
        self.0
    }

    /// Second component.
    pub fn y(&self) -> (r: Scalar)
        ensures
            r == self.1,
    {
        self.1
    }

    /// Third component.
    pub fn z(&self) -> (r: Scalar)
        ensures
            r == self.2,
    {
        self.2
    }

    pub open spec fn spec_plus(self, o: Vec3) -> Vec3 {
        Vec3(self.0.plus(o.0), self.1.plus(o.1), self.2.plus(o.2))
    }

    /// Sum, component by component.
    #[verifier::when_used_as_spec(spec_plus)]
    pub fn plus(self, o: Vec3) -> (r: Vec3)
        ensures
            r == self.spec_plus(o),
    {
        Vec3(self.0.plus(o.0), self.1.plus(o.1), self.2.plus(o.2))
    }

    pub open spec fn spec_minus(self, o: Vec3) -> Vec3 {
        Vec3(self.0.minus(o.0), self.1.minus(o.1), self.2.minus(o.2))
    }

    /// Difference, component by component.
    #[verifier::when_used_as_spec(spec_minus)]
    pub fn minus(self, o: Vec3) -> (r: Vec3)
        ensures
            r == self.spec_minus(o),
    {
        Vec3(self.0.minus(o.0), self.1.minus(o.1), self.2.minus(o.2))
    }

    pub open spec fn spec_negated(self) -> Vec3 {
        Vec3(self.0.negated(), self.1.negated(), self.2.negated())
    }

    /// The opposite vector.
    #[verifier::when_used_as_spec(spec_negated)]
    pub fn negated(self) -> (r: Vec3)
        ensures
            r == self.spec_negated(),
    {
        Vec3(self.0.negated(), self.1.negated(), self.2.negated())
    }

    pub open spec fn spec_scaled(self, k: Scalar) -> Vec3 {
        Vec3(self.0.times(k), self.1.times(k), self.2.times(k))
    }

    /// Each component multiplied by `k`.
    #[verifier::when_used_as_spec(spec_scaled)]
    pub fn scaled(self, k: Scalar) -> (r: Vec3)
        ensures
            r == self.spec_scaled(k),
    {
        Vec3(self.0.times(k), self.1.times(k), self.2.times(k))
    }

    pub open spec fn spec_shrunk(self, k: Scalar) -> Vec3 {
        Vec3(self.0.over(k), self.1.over(k), self.2.over(k))
    }

    /// Each component divided by `k`.
    #[verifier::when_used_as_spec(spec_shrunk)]
    pub fn shrunk(self, k: Scalar) -> (r: Vec3)
        ensures
            r == self.spec_shrunk(k),
    {
        Vec3(self.0.over(k), self.1.over(k), self.2.over(k))
    }

    pub open spec fn spec_times(self, o: Vec3) -> Vec3 {
        Vec3(self.0.times(o.0), self.1.times(o.1), self.2.times(o.2))
    }

    /// Product, component by component: how a colour is filtered by another.
    #[verifier::when_used_as_spec(spec_times)]
    pub fn times(self, o: Vec3) -> (r: Vec3)
        ensures
            r == self.spec_times(o),
    {
        Vec3(self.0.times(o.0), self.1.times(o.1), self.2.times(o.2))
    }

    pub open spec fn spec_dot(self, o: Vec3) -> Scalar {
        self.0.times(o.0).plus(self.1.times(o.1)).plus(self.2.times(o.2))
    }

    /// Inner product.
    #[verifier::when_used_as_spec(spec_dot)]
    pub fn dot(self, o: Vec3) -> (r: Scalar)
        ensures
            r == self.spec_dot(o),
    {
        self.0.times(o.0).plus(self.1.times(o.1)).plus(self.2.times(o.2))
    }

    pub open spec fn spec_cross(self, o: Vec3) -> Vec3 {
        Vec3(
            self.1.times(o.2).minus(self.2.times(o.1)),
            self.2.times(o.0).minus(self.0.times(o.2)),
            self.0.times(o.1).minus(self.1.times(o.0)),
        )
    }

    /// Vector product.
    #[verifier::when_used_as_spec(spec_cross)]
    pub fn cross(self, o: Vec3) -> (r: Vec3)
        ensures
            r == self.spec_cross(o),
    {
        Vec3(
            self.1.times(o.2).minus(self.2.times(o.1)),
            self.2.times(o.0).minus(self.0.times(o.2)),
            self.0.times(o.1).minus(self.1.times(o.0)),
        )
    }

    pub open spec fn spec_length_square(self) -> Scalar {
        self.dot(self)
    }

    /// Square of the length.
    #[verifier::when_used_as_spec(spec_length_square)]
    pub fn length_square(self) -> (r: Scalar)
        ensures
            r == self.spec_length_square(),
    {
        self.dot(self)
    }

    pub open spec fn spec_length(self) -> Scalar {
        self.length_square().sqrt()
    }

    /// Length.
    #[verifier::when_used_as_spec(spec_length)]
    pub fn length(self) -> (r: Scalar)
        ensures
            r == self.spec_length(),
    {
        self.length_square().sqrt()
    }

    pub open spec fn spec_largest(self) -> int {
        let a = magnitude(self.0.raw as int);
        let b = magnitude(self.1.raw as int);
        let c = magnitude(self.2.raw as int);
        if a >= b && a >= c {
            a
        } else if b >= c {
            b
        } else {
            c
        }
    }

    /// The size of the largest component, in raw units.
    pub fn largest(self) -> (m: u64)
        ensures
            m == self.spec_largest(),
    {
        let a = size(self.0.raw);
        let b = size(self.1.raw);
        let c = size(self.2.raw);
        if a >= b && a >= c {
            a
        } else if b >= c {
            b
        } else {
            c
        }
    }

    pub open spec fn spec_rescaled(self) -> Vec3 {
        let m = self.spec_largest();
        if 0 < m < 1_000_000 {
            self.spec_scaled(Scalar::spec_from_int(1_000_000))
        } else if m > 1_000_000_000_000 {
            self.spec_shrunk(Scalar::spec_from_int(10_000_000))
        } else {
            self
        }
    }

    /// A vector along the same line whose squares can be taken without loss:
    /// a vector with all components below 1 is magnified a million times,
    /// which is exact; one with a component above a million is reduced ten
    /// million times, each component rounded toward zero; any other stays.
    #[verifier::when_used_as_spec(spec_rescaled)]
    pub fn rescaled(self) -> (r: Vec3)
        ensures
            r == self.spec_rescaled(),
    {
        let m = self.largest();
        if 0 < m && m < 1_000_000 {
            self.scaled(Scalar::from_int(1_000_000))
        } else if m > 1_000_000_000_000 {
            self.shrunk(Scalar::from_int(10_000_000))
        } else {
            self
        }
    }

    pub open spec fn spec_capped(self) -> Vec3 {
        let low = Scalar::spec_one().spec_negated();
        Vec3(
            self.0.max(low).min(Scalar::spec_one()),
            self.1.max(low).min(Scalar::spec_one()),
            self.2.max(low).min(Scalar::spec_one()),
        )
    }

    /// Each component brought into `[-1, 1]`.
    #[verifier::when_used_as_spec(spec_capped)]
    pub fn capped(self) -> (r: Vec3)
        ensures
            r == self.spec_capped(),
    {
        let low = Scalar::one().negated();
        Vec3(
            self.0.max(low).min(Scalar::one()),
            self.1.max(low).min(Scalar::one()),
            self.2.max(low).min(Scalar::one()),
        )
    }

    pub open spec fn spec_unit_vector(self) -> Vec3 {
        let d = self.spec_rescaled();
        d.spec_shrunk(d.spec_length()).spec_capped()
    }

    /// The unit vector along this one; the zero vector stays zero.
    ///
    /// The vector is first rescaled, so that a very short or a very long one
    /// does not lose its length to rounding, then divided by its length, and
    /// each component is brought into `[-1, 1]`. For every vector but zero
    /// the result has unit length within the tolerance that
    /// `lemma_unit_vector_has_unit_length` states.
    #[verifier::when_used_as_spec(spec_unit_vector)]
    pub fn unit_vector(self) -> (r: Vec3)
        ensures
            r == self.spec_unit_vector(),
            -1_000_000 <= r.0.raw <= 1_000_000,
            -1_000_000 <= r.1.raw <= 1_000_000,
            -1_000_000 <= r.2.raw <= 1_000_000,
            self != Vec3::spec_zero() ==> 1_000_000 - 16 <= r.spec_length_square().raw
                <= 1_000_000 + 321,
            self == Vec3::spec_zero() ==> r == Vec3::spec_zero(),
    {
        proof {
            if self != Vec3::spec_zero() {
                Vec3::lemma_unit_vector_has_unit_length(self);
            } else {
                assert(self.spec_largest() == 0);
                assert(self.spec_length_square().raw == 0);
            }
        }
        let d = self.rescaled();
        d.shrunk(d.length()).capped()
    }
}

/// The size of a raw value.
fn size(raw: i64) -> (m: u64)
    ensures
        m == magnitude(raw as int),
{
    if raw >= 0 {
        raw as u64
    } else {
        (-(raw as i128)) as u64
    }
}

impl Vec3 {
    /// Black filters every colour to black, and every filter leaves black
    /// black.
    pub proof fn lemma_times_zero(v: Vec3)
        ensures
            v.spec_times(Vec3::spec_zero()) == Vec3::spec_zero(),
            Vec3::spec_zero().spec_times(v) == Vec3::spec_zero(),
            Vec3::spec_zero().spec_scaled(v.0) == Vec3::spec_zero(),
            Vec3::spec_zero().spec_plus(Vec3::spec_zero()) == Vec3::spec_zero(),
    {
        Scalar::lemma_times_zero(v.0);
        Scalar::lemma_times_zero(v.1);
        Scalar::lemma_times_zero(v.2);
    }

    /// Scaling by 1 changes nothing.
    pub proof fn lemma_scaled_one(v: Vec3)
        ensures
            v.spec_scaled(Scalar::spec_one()) == v,
    {
        Scalar::lemma_times_one(v.0);
        Scalar::lemma_times_one(v.1);
        Scalar::lemma_times_one(v.2);
    }
}

} // verus!
