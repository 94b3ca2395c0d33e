//! Textures: the colour of a surface at a point.

use crate::utils::elementary::{sin, spec_sin};
use crate::utils::scalar::Scalar;
use crate::utils::vec3::{Color, Vec3};
use vstd::prelude::*;

verus! {

/// A colour for every surface coordinate `(u, v)` and point `p`.
pub trait Texture {
    /// The colour at `(u, v)`, `p`.
    spec fn color_at(&self, u: Scalar, v: Scalar, p: Vec3) -> Color;

    /// Computes the colour at `(u, v)`, `p`.
    fn get_color(&self, u: Scalar, v: Scalar, p: Vec3) -> (c: Color)
        ensures
            c == self.color_at(u, v, p),
    ;
}

/// One colour everywhere.
#[derive(Clone, Copy, Debug)]
pub struct SolidColor {
    pub color: Color,
}

impl SolidColor {
    /// The texture of colour `(r, g, b)`.
    pub fn new(r: Scalar, g: Scalar, b: Scalar) -> (s: SolidColor)
        ensures
            s.color == Vec3(r, g, b),
    {
        SolidColor { color: Vec3(r, g, b) }
    }

    /// The texture whose colour is the product of two colours, component by
    /// component.
    pub fn from_samples(a: Vec3, b: Vec3) -> (s: SolidColor)
        ensures
            s.color == a.times(b),
    {
        SolidColor { color: a.times(b) }
    }

    /// `c` is a colour that `random` may give: the product of two points of
    /// the unit cube.
    pub open spec fn is_tint(c: Color) -> bool {
        exists|a: Vec3, b: Vec3|
            a.within(Scalar::zero(), Scalar::one()) && b.within(Scalar::zero(), Scalar::one())
                && c == #[trigger] a.times(b)
    }

    /// A random colour: the product of two draws from the unit cube, which
    /// favours darker tones.
    pub fn random() -> (s: SolidColor)
        ensures
            Self::is_tint(s.color),
    {
        let a = Vec3::random(Scalar::zero(), Scalar::one());
        let b = Vec3::random(Scalar::zero(), Scalar::one());
        Self::from_samples(a, b)
    }
}

impl Texture for SolidColor {
    open spec fn color_at(&self, u: Scalar, v: Scalar, p: Vec3) -> Color {
        self.color
    }

    fn get_color(&self, u: Scalar, v: Scalar, p: Vec3) -> (c: Color) {
        self.color
    }
}

/// The product of the three numbers, taken exactly, is below zero: none of
/// them is zero and an odd number of them is negative.
pub open spec fn spec_product_negative(a: Scalar, b: Scalar, c: Scalar) -> bool {
    a.raw != 0 && b.raw != 0 && c.raw != 0 && (((a.raw < 0) != (b.raw < 0)) != (c.raw < 0))
}

/// Tells whether the exact product of three numbers is below zero.
#[verifier::when_used_as_spec(spec_product_negative)]
pub fn product_negative(a: Scalar, b: Scalar, c: Scalar) -> (r: bool)
    ensures
        r == spec_product_negative(a, b, c),
{
    a.raw != 0 && b.raw != 0 && c.raw != 0 && (((a.raw < 0) != (b.raw < 0)) != (c.raw < 0))
}

/// A checker pattern in space: cubes of side pi / 10 that alternate between
/// two colours.
#[derive(Clone, Copy, Debug)]
pub struct CheckerTexture {
    pub odd_color: SolidColor,
    pub even_color: SolidColor,
}

impl CheckerTexture {
    /// The point lies in an odd cell: `sin(10 x) sin(10 y) sin(10 z) < 0`.
    pub open spec fn is_odd_cell(p: Vec3) -> bool {
        spec_product_negative(
            spec_sin(p.0.times(Scalar::from_int(10))),
            spec_sin(p.1.times(Scalar::from_int(10))),
            spec_sin(p.2.times(Scalar::from_int(10))),
        )
    }
}

impl Texture for CheckerTexture {
    open spec fn color_at(&self, u: Scalar, v: Scalar, p: Vec3) -> Color {
        if Self::is_odd_cell(p) {
            self.odd_color.color_at(u, v, p)
        } else {
            self.even_color.color_at(u, v, p)
        }
    }

    fn get_color(&self, u: Scalar, v: Scalar, p: Vec3) -> (c: Color) {
        let ten = Scalar::from_int(10);
        if product_negative(sin(p.0.times(ten)), sin(p.1.times(ten)), sin(p.2.times(ten))) {
            self.odd_color.get_color(u, v, p)
        } else {
            self.even_color.get_color(u, v, p)
        }
    }
}

/// Any texture of this library.
#[derive(Clone, Copy, Debug)]
pub enum TextureObject {
    Solid(SolidColor),
    Checker(CheckerTexture),
}

impl Texture for TextureObject {
    open spec fn color_at(&self, u: Scalar, v: Scalar, p: Vec3) -> Color {
        match self {
            TextureObject::Solid(s) => s.color_at(u, v, p),
            TextureObject::Checker(c) => c.color_at(u, v, p),
        }
    }

    fn get_color(&self, u: Scalar, v: Scalar, p: Vec3) -> (c: Color) {
        match self {
            TextureObject::Solid(s) => s.get_color(u, v, p),
            TextureObject::Checker(c) => c.get_color(u, v, p),
        }
    }
}

} // verus!
