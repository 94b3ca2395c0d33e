//! The light that arrives from where nothing is.

use crate::utils::scalar::{Scalar, SCALE};
use crate::utils::vec3::{Color, Vec3};
use vstd::prelude::*;

verus! {

/// A background that blends from `v1` straight below to `v2` straight above.
#[derive(Clone, Copy, Debug, PartialEq, Eq, Structural)]
pub struct ColorGradientSkyBox {
    pub v1: Color,
    pub v2: Color,
}

impl ColorGradientSkyBox {
    pub open spec fn spec_daylight() -> ColorGradientSkyBox {
        ColorGradientSkyBox {
            v1: Vec3::one(),
            v2: Vec3(Scalar { raw: 500_000 }, Scalar { raw: 700_000 }, Scalar::one()),
        }
    }

    /// White at the bottom, light blue at the top.
    #[verifier::when_used_as_spec(spec_daylight)]
    pub fn daylight() -> (s: ColorGradientSkyBox)
        ensures
            s == Self::spec_daylight(),
    {
        ColorGradientSkyBox {
            v1: Vec3::one(),
            v2: Vec3(Scalar { raw: 500_000 }, Scalar { raw: 700_000 }, Scalar::one()),
        }
    }

    /// How far up `dir` points, from 0 (straight down) to 1 (straight up):
    /// half of one plus the height of the unit vector along `dir`.
    pub open spec fn blend(dir: Vec3) -> Scalar {
        Scalar { raw: 500_000 }.times(dir.unit_vector().1.plus(Scalar::one()))
    }

    pub open spec fn spec_get_color(&self, dir: Vec3) -> Color {
        let t = Self::blend(dir);
        self.v1.scaled(Scalar::one().minus(t)).plus(self.v2.scaled(t))
    }

    /// No component of the two colours is negative.
    pub open spec fn is_visible(&self) -> bool {
        &&& 0 <= self.v1.0.raw && 0 <= self.v1.1.raw && 0 <= self.v1.2.raw
        &&& 0 <= self.v2.0.raw && 0 <= self.v2.1.raw && 0 <= self.v2.2.raw
    }

    /// Each component of `c` lies between those of the two colours, up to
    /// one raw unit lost to rounding.
    pub open spec fn holds(&self, c: Color) -> bool {
        &&& self.v1.0.min(self.v2.0).raw - 1 <= c.0.raw <= self.v1.0.max(self.v2.0).raw
        &&& self.v1.1.min(self.v2.1).raw - 1 <= c.1.raw <= self.v1.1.max(self.v2.1).raw
        &&& self.v1.2.min(self.v2.2).raw - 1 <= c.2.raw <= self.v1.2.max(self.v2.2).raw
    }

    /// The colour seen in direction `dir`: `v1 (1 - t) + v2 t` for the blend
    /// `t` of `dir`, which lies in `[0, 1]` for every direction. Where no
    /// component of the two colours is negative, each component of the
    /// result lies between theirs.
    pub fn get_color(&self, dir: Vec3) -> (c: Color)
        ensures
            c == self.spec_get_color(dir),
            0 <= Self::blend(dir).raw <= SCALE,
            self.is_visible() ==> self.holds(c),
    {
        let t = Scalar { raw: 500_000 }.times(dir.unit_vector().1.plus(Scalar::one()));
        proof {
            Self::lemma_blend_in_range(dir);
            if self.is_visible() {
                self.lemma_color_between(dir);
            }
        }
        self.v1.scaled(Scalar::one().minus(t)).plus(self.v2.scaled(t))
    }

    /// The blend of every direction lies in `[0, 1]`.
    pub proof fn lemma_blend_in_range(dir: Vec3)
        ensures
            0 <= Self::blend(dir).raw <= SCALE,
    {
        let u = dir.spec_unit_vector();
        if dir != Vec3::spec_zero() {
            Vec3::lemma_unit_vector_has_unit_length(dir);
        } else {
            assert(dir.spec_largest() == 0);
            assert(dir.spec_rescaled() == dir);
            assert(dir.spec_length_square().raw == 0);
            assert(u == Vec3::spec_zero());
        }
        let k = u.1.raw + SCALE;
        assert(0 <= k <= 2 * SCALE);
        assert(u.1.spec_plus(Scalar::spec_one()).raw == k);
        assert(0 <= 500_000 * k <= 500_000 * 2_000_000);
        vstd::arithmetic::div_mod::lemma_div_is_ordered(0, 500_000 * k, 1_000_000);
        vstd::arithmetic::div_mod::lemma_div_is_ordered(500_000 * k, 1_000_000_000_000, 1_000_000);
        assert(Self::blend(dir).raw == (500_000 * k) / 1_000_000);
    }

    /// A background of colours without negative components shows, in every
    /// direction, a colour between the two.
    pub proof fn lemma_color_between(&self, dir: Vec3)
        requires
            self.is_visible(),
        ensures
            self.holds(self.spec_get_color(dir)),
    {
        let t = Self::blend(dir);
        Self::lemma_blend_in_range(dir);
        Scalar::lemma_blend_between(self.v1.0, self.v2.0, t);
        Scalar::lemma_blend_between(self.v1.1, self.v2.1, t);
        Scalar::lemma_blend_between(self.v1.2, self.v2.2, t);
    }

    /// Daylight is bright in every direction: red is at least 0.5, green at
    /// least 0.7, and blue is 1.
    pub proof fn lemma_daylight_is_bright(dir: Vec3)
        ensures
            500_000 <= Self::spec_daylight().spec_get_color(dir).0.raw <= SCALE,
            700_000 <= Self::spec_daylight().spec_get_color(dir).1.raw <= SCALE,
            Self::spec_daylight().spec_get_color(dir).2.raw == SCALE,
    {
        Self::lemma_blend_in_range(dir);
    }
}

impl ColorGradientSkyBox {
    /// No light from anywhere.
    pub open spec fn darkness() -> ColorGradientSkyBox {
        ColorGradientSkyBox { v1: Vec3::spec_zero(), v2: Vec3::spec_zero() }
    }

    /// Darkness is black in every direction.
    pub proof fn lemma_darkness_is_black(dir: Vec3)
        ensures
            Self::darkness().spec_get_color(dir) == Vec3::spec_zero(),
    {
        let t = Self::blend(dir);
        Scalar::lemma_times_zero(t);
        Scalar::lemma_times_zero(Scalar::spec_one().minus(t));
    }
}

} // verus!
