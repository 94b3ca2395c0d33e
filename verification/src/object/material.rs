//! Materials: what becomes of a ray that hits a surface.

use crate::object::record::{Face, HitRecord};
use crate::object::texture::{SolidColor, Texture, TextureObject};
use crate::utils::ray::Ray;
use crate::utils::sampling::{
    is_angle, is_fraction, is_height, is_nearly_unit, is_unit_sample, rand_unit_vector,
    spec_unit_vector_from, unit_interval,
};
use crate::utils::scalar::{magnitude, Scalar};
use crate::utils::vec3::{Color, Vec3};
use vstd::prelude::*;

verus! {

/// A ray after scattering, with the colour filter that the surface applies to
/// the light arriving along it.
#[derive(Clone, Copy, Debug, PartialEq, Eq, Structural)]
pub struct FilteredRay {
    pub attenuation: Color,
    pub scattered: Ray,
}

/// The random numbers that one scattering may consume.
#[derive(Clone, Copy, Debug, PartialEq, Eq, Structural)]
pub struct ScatterSample {
    /// A direction drawn uniformly from the unit sphere.
    pub unit: Vec3,
    /// A number drawn uniformly from `[0, 1)`.
    pub chance: Scalar,
}

impl ScatterSample {
    /// The sample is one that the random generator may deliver.
    pub open spec fn admissible(self) -> bool {
        is_unit_sample(self.unit) && is_fraction(self.chance)
    }

    /// The sample made of a fresh random direction and a fresh random number.
    pub fn draw() -> (s: ScatterSample)
        ensures
            s.admissible(),
    {
        let unit = rand_unit_vector();
        let chance = unit_interval();
        ScatterSample { unit, chance }
    }

    /// Some admissible sample: the direction at longitude 0 and height 0, and
    /// the number 0.
    pub open spec fn plain() -> ScatterSample {
        ScatterSample {
            unit: spec_unit_vector_from(Scalar::zero(), Scalar::zero()),
            chance: Scalar::zero(),
        }
    }

    /// The plain sample is admissible.
    pub proof fn lemma_plain_admissible()
        ensures
            Self::plain().admissible(),
            is_unit_sample(Self::plain().unit),
            is_fraction(Self::plain().chance),
    {
        assert(is_angle(Scalar::zero()) && is_height(Scalar::zero()));
        assert(is_unit_sample(spec_unit_vector_from(Scalar::zero(), Scalar::zero())));
    }
}

/// The behaviour of a surface: the light it emits and the way it scatters.
pub trait Material {
    /// The name of the kind of material.
    spec fn kind_name(&self) -> Seq<char>;

    /// The light emitted at surface coordinate `(u, v)`, point `p`.
    spec fn emitted(&self, u: Scalar, v: Scalar, p: Vec3) -> Color;

    /// What becomes of the ray `r` that hits at `h`, given the random numbers
    /// `s`: `None` when it is absorbed.
    spec fn scattered_with(&self, r: Ray, h: HitRecord, s: ScatterSample) -> Option<FilteredRay>;

    /// Names the kind of material.
    fn get_type(&self) -> (name: &'static str)
        ensures
            name@ == self.kind_name(),
    ;

    /// Computes the light emitted at `(u, v)`, `p`.
    fn emit(&self, u: Scalar, v: Scalar, p: Vec3) -> (c: Color)
        ensures
            c == self.emitted(u, v, p),
    ;

    /// Scatters `r` at `h` with the given random numbers.
    fn scatter_with(&self, r: &Ray, h: &HitRecord, s: &ScatterSample) -> (res: Option<FilteredRay>)
        ensures
            res == self.scattered_with(*r, *h, *s),
    ;

    /// Scatters `r` at `h` with fresh random numbers.
    fn scatter(&self, r: &Ray, h: &HitRecord) -> (res: Option<FilteredRay>)
        ensures
            exists|s: ScatterSample|
                s.admissible() && res == #[trigger] self.scattered_with(*r, *h, s),
    ;
}

/// A matte surface: light leaves in a random direction around the normal.
#[derive(Clone, Copy, Debug)]
pub struct LambertianDiffuse {
    pub texture: TextureObject,
}

impl Material for LambertianDiffuse {
    open spec fn kind_name(&self) -> Seq<char> {
        "LambertianDiffuse"@
    }

    open spec fn emitted(&self, u: Scalar, v: Scalar, p: Vec3) -> Color {
        Vec3::zero()
    }

    open spec fn scattered_with(&self, r: Ray, h: HitRecord, s: ScatterSample) -> Option<
        FilteredRay,
    > {
        Some(
            FilteredRay {
                attenuation: self.texture.color_at(h.u, h.v, h.p),
                scattered: Ray { orig: h.p, dir: h.normal.plus(s.unit), t: r.t },
            },
        )
    }

    fn get_type(&self) -> (name: &'static str) {
        "LambertianDiffuse"
    }

    fn emit(&self, u: Scalar, v: Scalar, p: Vec3) -> (c: Color) {
        Vec3::zero()
    }

    fn scatter_with(&self, r: &Ray, h: &HitRecord, s: &ScatterSample) -> (res: Option<
        FilteredRay,
    >) {
        Some(
            FilteredRay {
                attenuation: self.texture.get_color(h.u, h.v, h.p),
                scattered: Ray { orig: h.p, dir: h.normal.plus(s.unit), t: r.time() },
            },
        )
    }

    fn scatter(&self, r: &Ray, h: &HitRecord) -> (res: Option<FilteredRay>)
        ensures
            res matches Some(f) && f.attenuation == self.texture.color_at(h.u, h.v, h.p)
                && f.scattered.orig == h.p && f.scattered.t == r.t,
    {
        let s = ScatterSample { unit: rand_unit_vector(), chance: Scalar::zero() };
        proof {
            ScatterSample::lemma_plain_admissible();
        }
        self.scatter_with(r, h, &s)
    }
}

/// A mirror, more or less polished.
#[derive(Clone, Copy, Debug)]
pub struct Metal {
    /// How far the reflection strays from the mirror direction, from 0
    /// (perfect mirror) to 1.
    pub fuzziness: Scalar,
    pub albedo: Color,
}

impl Metal {
    /// `fuzziness` brought into `[0, 1]`.
    pub open spec fn clamped(fuzziness: Scalar) -> Scalar {
        fuzziness.max(Scalar::zero()).min(Scalar::one())
    }

    /// The metal of the given colour, with `fuzziness` brought into `[0, 1]`.
    pub fn new(fuzziness: Scalar, albedo: Color) -> (m: Metal)
        ensures
            m.fuzziness == Self::clamped(fuzziness),
            m.albedo == albedo,
    {
        Metal { fuzziness: fuzziness.max(Scalar::zero()).min(Scalar::one()), albedo }
    }

    /// The direction of `d` mirrored at a surface with normal `n`, pushed
    /// aside by `fuzziness` times `unit`.
    pub open spec fn reflected(&self, d: Vec3, n: Vec3, unit: Vec3) -> Vec3 {
        d.minus(n.scaled(Scalar::from_int(2).times(d.dot(n)))).plus(unit.scaled(self.fuzziness))
    }
}

impl Material for Metal {
    open spec fn kind_name(&self) -> Seq<char> {
        "Metal"@
    }

    open spec fn emitted(&self, u: Scalar, v: Scalar, p: Vec3) -> Color {
        Vec3::zero()
    }

    open spec fn scattered_with(&self, r: Ray, h: HitRecord, s: ScatterSample) -> Option<
        FilteredRay,
    > {
        let dir = self.reflected(r.dir, h.normal, s.unit);
        if dir.dot(h.normal).raw > 0 {
            Some(
                FilteredRay {
                    attenuation: self.albedo,
                    scattered: Ray { orig: h.p, dir, t: r.t },
                },
            )
        } else {
            None
        }
    }

    fn get_type(&self) -> (name: &'static str) {
        "Metal"
    }

    fn emit(&self, u: Scalar, v: Scalar, p: Vec3) -> (c: Color) {
        Vec3::zero()
    }

    fn scatter_with(&self, r: &Ray, h: &HitRecord, s: &ScatterSample) -> (res: Option<
        FilteredRay,
    >) {
        let d = r.direction();
        let dir = d.minus(h.normal.scaled(Scalar::from_int(2).times(d.dot(h.normal)))).plus(
            s.unit.scaled(self.fuzziness),
        );
        if dir.dot(h.normal).raw > 0 {
            Some(
                FilteredRay {
                    attenuation: self.albedo,
                    scattered: Ray { orig: h.p, dir, t: r.time() },
                },
            )
        } else {
            None
        }
    }

    fn scatter(&self, r: &Ray, h: &HitRecord) -> (res: Option<FilteredRay>)
        ensures
            res matches Some(f) ==> f.attenuation == self.albedo && f.scattered.orig == h.p
                && f.scattered.t == r.t && f.scattered.dir.dot(h.normal).raw > 0,
    {
        let s = ScatterSample { unit: rand_unit_vector(), chance: Scalar::zero() };
        proof {
            ScatterSample::lemma_plain_admissible();
        }
        self.scatter_with(r, h, &s)
    }
}

/// A clear material such as glass or water, which bends light and reflects
/// part of it.
#[derive(Clone, Copy, Debug)]
pub struct Dielectric {
    /// Refractive index relative to the surroundings.
    pub eta: Scalar,
    /// `1 / eta`.
    pub eta_inv: Scalar,
    /// Reflectance at normal incidence: `((1 - eta) / (1 + eta))^2`.
    pub r0: Scalar,
    pub albedo: Color,
}

/// The fifth power of `x`.
pub open spec fn spec_pow5(x: Scalar) -> Scalar {
    x.times(x).times(x.times(x)).times(x)
}

/// Computes the fifth power of `x`.
#[verifier::when_used_as_spec(spec_pow5)]
pub fn pow5(x: Scalar) -> (r: Scalar)
    ensures
        r == spec_pow5(x),
{
    let x2 = x.times(x);
    x2.times(x2).times(x)
}

impl Dielectric {
    /// Reflectance at normal incidence for refractive index `eta`.
    pub open spec fn normal_reflectance(eta: Scalar) -> Scalar {
        let q = Scalar::one().minus(eta).over(Scalar::one().plus(eta));
        q.times(q)
    }

    /// The derived fields agree with `eta`.
    pub open spec fn wf(&self) -> bool {
        self.eta_inv == Scalar::one().over(self.eta) && self.r0 == Self::normal_reflectance(
            self.eta,
        )
    }

    pub open spec fn spec_new(eta: Scalar, albedo: Color) -> Dielectric {
        Dielectric {
            eta,
            eta_inv: Scalar::one().over(eta),
            r0: Self::normal_reflectance(eta),
            albedo,
        }
    }

    /// The dielectric of refractive index `eta` and the given colour.
    #[verifier::when_used_as_spec(spec_new)]
    pub fn new(eta: Scalar, albedo: Color) -> (d: Dielectric)
        ensures
            d == Self::spec_new(eta, albedo),
            d.wf(),
            d.eta == eta,
            d.albedo == albedo,
            eta.raw > 0 ==> 0 <= d.r0.raw < 1_000_000,
    {
        proof {
            if eta.raw > 0 {
                Self::lemma_reflectance_below_one(eta);
            }
        }
        let q = Scalar::one().minus(eta).over(Scalar::one().plus(eta));
        Dielectric { eta, eta_inv: Scalar::one().over(eta), r0: q.times(q), albedo }
    }

    pub open spec fn spec_schlick(&self, cosine: Scalar) -> Scalar {
        self.r0.plus(Scalar::one().minus(self.r0).times(spec_pow5(Scalar::one().minus(cosine))))
    }

    /// Schlick's estimate of the share of light that is reflected when the
    /// ray makes an angle of the given cosine with the normal:
    /// `r0 + (1 - r0) (1 - cosine)^5`.
    #[verifier::when_used_as_spec(spec_schlick)]
    pub fn schlick(&self, cosine: Scalar) -> (r: Scalar)
        ensures
            r == self.spec_schlick(cosine),
    {
        self.r0.plus(Scalar::one().minus(self.r0).times(pow5(Scalar::one().minus(cosine))))
    }

    /// The ratio of refractive indices met by a ray that crosses as `f` says.
    pub open spec fn ratio(&self, f: Face) -> Scalar {
        match f {
            Face::Inward => self.eta_inv,
            Face::Outward => self.eta,
        }
    }

    /// The ray of unit direction `ru` is reflected: either no refracted ray
    /// exists (total internal reflection), or `chance` falls below the
    /// reflectance.
    pub open spec fn reflects(&self, ru: Vec3, n: Vec3, f: Face, chance: Scalar) -> bool {
        let cos_theta = ru.dot(n).negated();
        let sin_theta = Scalar::one().minus(cos_theta.times(cos_theta)).sqrt();
        sin_theta.times(self.ratio(f)).raw > Scalar::one().raw || chance.raw < self.spec_schlick(
            cos_theta,
        ).raw
    }

    /// The mirror direction of `ru` at a surface with normal `n`:
    /// `ru + 2 cos(theta) n`, where `cos(theta) = -ru . n`.
    pub open spec fn mirrored(ru: Vec3, n: Vec3) -> Vec3 {
        let cos_theta = ru.dot(n).negated();
        ru.plus(n.scaled(Scalar::from_int(2).times(cos_theta)))
    }

    /// The direction of `ru` after refraction by the ratio `er`: the part
    /// along the surface is scaled by `er`, and the part along the normal
    /// completes it to unit length.
    pub open spec fn refracted(ru: Vec3, n: Vec3, er: Scalar) -> Vec3 {
        let cos_theta = ru.dot(n).negated();
        let r_parallel = ru.plus(n.scaled(cos_theta)).scaled(er);
        let r_perp = n.scaled(Scalar::one().minus(r_parallel.length_square()).sqrt().negated());
        r_parallel.plus(r_perp)
    }

    /// The direction in which the ray of direction `d` leaves.
    pub open spec fn outgoing(&self, d: Vec3, n: Vec3, f: Face, chance: Scalar) -> Vec3 {
        let ru = d.unit_vector();
        if self.reflects(ru, n, f, chance) {
            Self::mirrored(ru, n)
        } else {
            Self::refracted(ru, n, self.ratio(f))
        }
    }
}

impl Material for Dielectric {
    open spec fn kind_name(&self) -> Seq<char> {
        "Dielectric"@
    }

    open spec fn emitted(&self, u: Scalar, v: Scalar, p: Vec3) -> Color {
        Vec3::zero()
    }

    open spec fn scattered_with(&self, r: Ray, h: HitRecord, s: ScatterSample) -> Option<
        FilteredRay,
    > {
        Some(
            FilteredRay {
                attenuation: self.albedo,
                scattered: Ray {
                    orig: h.p,
                    dir: self.outgoing(r.dir, h.normal, h.f, s.chance),
                    t: r.t,
                },
            },
        )
    }

    fn get_type(&self) -> (name: &'static str) {
        "Dielectric"
    }

    fn emit(&self, u: Scalar, v: Scalar, p: Vec3) -> (c: Color) {
        Vec3::zero()
    }

    fn scatter_with(&self, r: &Ray, h: &HitRecord, s: &ScatterSample) -> (res: Option<
        FilteredRay,
    >) {
        let er = match h.f {
            Face::Inward => self.eta_inv,
            Face::Outward => self.eta,
        };
        let ru = r.direction().unit_vector();
        let cos_theta = ru.dot(h.normal).negated();
        let sin_theta = Scalar::one().minus(cos_theta.times(cos_theta)).sqrt();
        let dir = if sin_theta.times(er).raw > Scalar::one().raw || s.chance.raw < self.schlick(
            cos_theta,
        ).raw {
            ru.plus(h.normal.scaled(Scalar::from_int(2).times(cos_theta)))
        } else {
            let r_parallel = ru.plus(h.normal.scaled(cos_theta)).scaled(er);
            let r_perp = h.normal.scaled(
                Scalar::one().minus(r_parallel.length_square()).sqrt().negated(),
            );
            r_parallel.plus(r_perp)
        };
        Some(
            FilteredRay {
                attenuation: self.albedo,
                scattered: Ray { orig: h.p, dir, t: r.time() },
            },
        )
    }

    fn scatter(&self, r: &Ray, h: &HitRecord) -> (res: Option<FilteredRay>)
        ensures
            res matches Some(f) && f.attenuation == self.albedo && f.scattered.orig == h.p
                && f.scattered.t == r.t,
    {
        let s = ScatterSample { unit: Vec3::zero(), chance: unit_interval() };
        let res = self.scatter_with(r, h, &s);
        proof {
            ScatterSample::lemma_plain_admissible();
            let witness = ScatterSample { unit: ScatterSample::plain().unit, chance: s.chance };
            assert(witness.admissible() && res == self.scattered_with(*r, *h, witness));
        }
        res
    }
}

/// A lamp: it sends out light and scatters none.
#[derive(Clone, Copy, Debug)]
pub struct DiffuseLight {
    pub emit: TextureObject,
    pub brightness: Scalar,
}

impl Material for DiffuseLight {
    open spec fn kind_name(&self) -> Seq<char> {
        "DiffuseLight"@
    }

    open spec fn emitted(&self, u: Scalar, v: Scalar, p: Vec3) -> Color {
        self.emit.color_at(u, v, p).scaled(self.brightness)
    }

    open spec fn scattered_with(&self, r: Ray, h: HitRecord, s: ScatterSample) -> Option<
        FilteredRay,
    > {
        None
    }

    fn get_type(&self) -> (name: &'static str) {
        "DiffuseLight"
    }

    fn emit(&self, u: Scalar, v: Scalar, p: Vec3) -> (c: Color) {
        self.emit.get_color(u, v, p).scaled(self.brightness)
    }

    fn scatter_with(&self, r: &Ray, h: &HitRecord, s: &ScatterSample) -> (res: Option<
        FilteredRay,
    >) {
        None
    }

    fn scatter(&self, r: &Ray, h: &HitRecord) -> (res: Option<FilteredRay>)
        ensures
            res is None,
    {
        proof {
            ScatterSample::lemma_plain_admissible();
            assert(self.scattered_with(*r, *h, ScatterSample::plain()) is None);
        }
        None
    }
}

/// The material of fog or smoke: light leaves in any direction.
#[derive(Clone, Copy, Debug)]
pub struct Isotropic {
    pub albedo: TextureObject,
}

impl Material for Isotropic {
    open spec fn kind_name(&self) -> Seq<char> {
        "Isotropic"@
    }

    open spec fn emitted(&self, u: Scalar, v: Scalar, p: Vec3) -> Color {
        Vec3::zero()
    }

    open spec fn scattered_with(&self, r: Ray, h: HitRecord, s: ScatterSample) -> Option<
        FilteredRay,
    > {
        Some(
            FilteredRay {
                attenuation: self.albedo.color_at(h.u, h.v, h.p),
                scattered: Ray { orig: h.p, dir: s.unit, t: r.t },
            },
        )
    }

    fn get_type(&self) -> (name: &'static str) {
        "Isotropic"
    }

    fn emit(&self, u: Scalar, v: Scalar, p: Vec3) -> (c: Color) {
        Vec3::zero()
    }

    fn scatter_with(&self, r: &Ray, h: &HitRecord, s: &ScatterSample) -> (res: Option<
        FilteredRay,
    >) {
        Some(
            FilteredRay {
                attenuation: self.albedo.get_color(h.u, h.v, h.p),
                scattered: Ray { orig: h.p, dir: s.unit, t: r.time() },
            },
        )
    }

    fn scatter(&self, r: &Ray, h: &HitRecord) -> (res: Option<FilteredRay>)
        ensures
            res matches Some(f) && f.attenuation == self.albedo.color_at(h.u, h.v, h.p)
                && f.scattered.orig == h.p && f.scattered.t == r.t && is_nearly_unit(
                f.scattered.dir,
            ),
    {
        let s = ScatterSample { unit: rand_unit_vector(), chance: Scalar::zero() };
        proof {
            ScatterSample::lemma_plain_admissible();
        }
        self.scatter_with(r, h, &s)
    }
}

/// Any material of this library.
#[derive(Clone, Copy, Debug)]
pub enum MaterialObject {
    Lambertian(LambertianDiffuse),
    Metal(Metal),
    Dielectric(Dielectric),
    Light(DiffuseLight),
    Isotropic(Isotropic),
}

impl MaterialObject {
    pub open spec fn spec_matte(color: Color) -> MaterialObject {
        MaterialObject::Lambertian(
            LambertianDiffuse { texture: TextureObject::Solid(SolidColor { color }) },
        )
    }

    /// A matte material of one colour.
    #[verifier::when_used_as_spec(spec_matte)]
    pub fn matte(color: Color) -> (m: MaterialObject)
        ensures
            m == Self::spec_matte(color),
    {
        MaterialObject::Lambertian(
            LambertianDiffuse { texture: TextureObject::Solid(SolidColor { color }) },
        )
    }

    pub open spec fn spec_lamp(color: Color, brightness: Scalar) -> MaterialObject {
        MaterialObject::Light(
            DiffuseLight { emit: TextureObject::Solid(SolidColor { color }), brightness },
        )
    }

    /// A lamp of one colour.
    #[verifier::when_used_as_spec(spec_lamp)]
    pub fn lamp(color: Color, brightness: Scalar) -> (m: MaterialObject)
        ensures
            m == Self::spec_lamp(color, brightness),
    {
        MaterialObject::Light(
            DiffuseLight { emit: TextureObject::Solid(SolidColor { color }), brightness },
        )
    }
}

impl Material for MaterialObject {
    open spec fn kind_name(&self) -> Seq<char> {
        match self {
            MaterialObject::Lambertian(m) => m.kind_name(),
            MaterialObject::Metal(m) => m.kind_name(),
            MaterialObject::Dielectric(m) => m.kind_name(),
            MaterialObject::Light(m) => m.kind_name(),
            MaterialObject::Isotropic(m) => m.kind_name(),
        }
    }

    open spec fn emitted(&self, u: Scalar, v: Scalar, p: Vec3) -> Color {
        match self {
            MaterialObject::Lambertian(m) => m.emitted(u, v, p),
            MaterialObject::Metal(m) => m.emitted(u, v, p),
            MaterialObject::Dielectric(m) => m.emitted(u, v, p),
            MaterialObject::Light(m) => m.emitted(u, v, p),
            MaterialObject::Isotropic(m) => m.emitted(u, v, p),
        }
    }

    open spec fn scattered_with(&self, r: Ray, h: HitRecord, s: ScatterSample) -> Option<
        FilteredRay,
    > {
        match self {
            MaterialObject::Lambertian(m) => m.scattered_with(r, h, s),
            MaterialObject::Metal(m) => m.scattered_with(r, h, s),
            MaterialObject::Dielectric(m) => m.scattered_with(r, h, s),
            MaterialObject::Light(m) => m.scattered_with(r, h, s),
            MaterialObject::Isotropic(m) => m.scattered_with(r, h, s),
        }
    }

    fn get_type(&self) -> (name: &'static str) {
        match self {
            MaterialObject::Lambertian(m) => m.get_type(),
            MaterialObject::Metal(m) => m.get_type(),
            MaterialObject::Dielectric(m) => m.get_type(),
            MaterialObject::Light(m) => m.get_type(),
            MaterialObject::Isotropic(m) => m.get_type(),
        }
    }

    fn emit(&self, u: Scalar, v: Scalar, p: Vec3) -> (c: Color) {
        match self {
            MaterialObject::Lambertian(m) => m.emit(u, v, p),
            MaterialObject::Metal(m) => m.emit(u, v, p),
            MaterialObject::Dielectric(m) => m.emit(u, v, p),
            MaterialObject::Light(m) => m.emit(u, v, p),
            MaterialObject::Isotropic(m) => m.emit(u, v, p),
        }
    }

    fn scatter_with(&self, r: &Ray, h: &HitRecord, s: &ScatterSample) -> (res: Option<
        FilteredRay,
    >) {
        match self {
            MaterialObject::Lambertian(m) => m.scatter_with(r, h, s),
            MaterialObject::Metal(m) => m.scatter_with(r, h, s),
            MaterialObject::Dielectric(m) => m.scatter_with(r, h, s),
            MaterialObject::Light(m) => m.scatter_with(r, h, s),
            MaterialObject::Isotropic(m) => m.scatter_with(r, h, s),
        }
    }

    fn scatter(&self, r: &Ray, h: &HitRecord) -> (res: Option<FilteredRay>) {
        let s = ScatterSample::draw();
        self.scatter_with(r, h, &s)
    }
}

impl LambertianDiffuse {
    /// A matte surface of one colour filters by that colour, wherever it is
    /// hit and whatever is drawn.
    pub proof fn lemma_solid_attenuation(
        &self,
        color: Color,
        r: Ray,
        h: HitRecord,
        s: ScatterSample,
    )
        requires
            self.texture == TextureObject::Solid(SolidColor { color }),
        ensures
            self.scattered_with(r, h, s) matches Some(f) && f.attenuation == color,
    {
    }
}

impl Dielectric {
    /// The part of the unit direction `ru` that lies along the surface with
    /// normal `n`.
    pub open spec fn parallel_part(ru: Vec3, n: Vec3) -> Vec3 {
        ru.plus(n.scaled(ru.dot(n).negated()))
    }

    /// With the refractive index 1, inside and outside are alike: the ratio
    /// is 1 from either side, nothing is reflected at normal incidence, no
    /// ray is reflected totally, and refraction keeps the part of the ray
    /// along the surface as it is.
    pub proof fn lemma_matched_index(&self, ru: Vec3, n: Vec3, f: Face, chance: Scalar)
        requires
            self.wf(),
            self.eta == Scalar::spec_one(),
        ensures
            self.ratio(f) == Scalar::spec_one(),
            self.r0 == Scalar::spec_zero(),
            self.reflects(ru, n, f, chance) == (chance.raw < self.spec_schlick(
                ru.dot(n).negated(),
            ).raw),
            Self::refracted(ru, n, self.ratio(f)) == Self::parallel_part(ru, n).plus(
                n.scaled(
                    Scalar::spec_one().minus(
                        Self::parallel_part(ru, n).length_square(),
                    ).sqrt().negated(),
                ),
            ),
    {
        Scalar::lemma_times_one(Scalar::spec_one());
        assert(Scalar::spec_one().over(Scalar::spec_one()) == Scalar::spec_one());
        let cos_theta = ru.dot(n).negated();
        let under = Scalar::spec_one().minus(cos_theta.times(cos_theta));
        Scalar::lemma_square_nonnegative(cos_theta);
        Scalar::lemma_sqrt_bounds(under);
        Scalar::lemma_times_one(under.sqrt());
        Vec3::lemma_scaled_one(Self::parallel_part(ru, n));
    }
}

impl MaterialObject {
    /// The material sends out no light of its own.
    pub open spec fn emits_nothing(&self) -> bool {
        !(self is Light)
    }
}

impl Dielectric {
    /// For a positive refractive index the reflectance at normal incidence
    /// lies in `[0, 1)`.
    pub proof fn lemma_reflectance_below_one(eta: Scalar)
        requires
            eta.raw > 0,
        ensures
            0 <= Self::normal_reflectance(eta).raw < 1_000_000,
    {
        let s: int = 1_000_000;
        let num = Scalar::spec_one().minus(eta);
        let den = Scalar::spec_one().plus(eta);
        let n = magnitude(num.raw as int);
        let d = den.raw as int;
        assert(0 <= n < d);
        let q = num.over(den);
        assert(magnitude(num.raw * s) == n * s) by (nonlinear_arith)
            requires
                n == magnitude(num.raw as int),
                s == 1_000_000,
        ;
        assert(0 <= n * s && n * s < d * s) by (nonlinear_arith)
            requires
                0 <= n < d,
                s == 1_000_000,
        ;
        vstd::arithmetic::div_mod::lemma_fundamental_div_mod(n * s, d);
        vstd::arithmetic::div_mod::lemma_mod_bound(n * s, d);
        vstd::arithmetic::div_mod::lemma_div_pos_is_pos(n * s, d);
        let m = (n * s) / d;
        assert(m < s) by (nonlinear_arith)
            requires
                d * m <= n * s,
                n * s < d * s,
                d > 0,
        ;
        assert(magnitude(q.raw as int) == m);
        assert(q.raw * q.raw == m * m) by (nonlinear_arith)
            requires
                m == magnitude(q.raw as int),
        ;
        assert(0 <= m * m && m * m < s * s) by (nonlinear_arith)
            requires
                0 <= m < s,
        ;
        vstd::arithmetic::div_mod::lemma_div_pos_is_pos(m * m, s);
        vstd::arithmetic::div_mod::lemma_fundamental_div_mod(m * m, s);
        vstd::arithmetic::div_mod::lemma_mod_bound(m * m, s);
        assert((m * m) / s < s) by (nonlinear_arith)
            requires
                s * ((m * m) / s) <= m * m,
                m * m < s * s,
                s > 0,
        ;
    }
}

} // verus!
