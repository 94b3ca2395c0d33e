//! A field of small random spheres on a checkered ground, with three large
//! spheres in the middle.

use crate::config::scene::SceneConfig;
use crate::object::hittable::Hittable;
use crate::object::material::{Dielectric, LambertianDiffuse, MaterialObject, Metal};
use crate::object::sphere::{BouncingSphere, Sphere};
use crate::object::texture::{CheckerTexture, SolidColor, TextureObject};
use crate::object::world::World;
use crate::render::camera::Camera;
use crate::utils::sampling::{is_fraction, uniform, unit_interval};
use crate::utils::scalar::Scalar;
use crate::utils::vec3::{Color, Vec3};
use vstd::prelude::*;

verus! {

/// The field of spheres. With `bounce`, the matte ones among the small
/// spheres hop.
#[derive(Clone, Copy, Debug)]
pub struct RandomSpheresScene {
    pub bounce: bool,
}

/// The random numbers that go into one small sphere.
#[derive(Clone, Copy, Debug)]
pub struct SphereDraw {
    /// How far the sphere is off its place in the grid, along x.
    pub dx: Scalar,
    /// How far the sphere is off its place in the grid, along z.
    pub dz: Scalar,
    /// Decides the material: matte below 0.65, metal below 0.9, else glass.
    pub choice: Scalar,
    /// The two factors of the colour of a matte sphere.
    pub tint_a: Vec3,
    pub tint_b: Vec3,
    /// The fuzziness of a metal sphere.
    pub fuzz: Scalar,
    /// The colour of a metal sphere.
    pub albedo: Color,
    /// How high a hopping sphere rises.
    pub height: Scalar,
}

impl SphereDraw {
    /// The numbers lie in the ranges that they are drawn from.
    pub open spec fn admissible(self) -> bool {
        &&& -500_000 <= self.dx.raw < 500_000
        &&& -500_000 <= self.dz.raw < 500_000
        &&& is_fraction(self.choice)
        &&& self.tint_a.within(Scalar::zero(), Scalar::one())
        &&& self.tint_b.within(Scalar::zero(), Scalar::one())
        &&& 0 <= self.fuzz.raw < 500_000
        &&& self.albedo.within(Scalar { raw: 500_000 }, Scalar::one())
        &&& is_fraction(self.height)
    }

    /// Fresh random numbers for one small sphere.
    pub fn draw() -> (d: SphereDraw)
        ensures
            d.admissible(),
    {
        let half = Scalar { raw: 500_000 };
        let dx = uniform(Scalar { raw: -500_000 }, half);
        let dz = uniform(Scalar { raw: -500_000 }, half);
        let choice = unit_interval();
        let tint_a = Vec3::random(Scalar::zero(), Scalar::one());
        let tint_b = Vec3::random(Scalar::zero(), Scalar::one());
        let fuzz = uniform(Scalar::zero(), half);
        let albedo = Vec3::random(half, Scalar::one());
        let height = unit_interval();
        SphereDraw { dx, dz, choice, tint_a, tint_b, fuzz, albedo, height }
    }
}

/// The refractive index of the glass spheres: 1.33.
pub open spec fn spec_glass() -> MaterialObject {
    MaterialObject::Dielectric(Dielectric::spec_new(Scalar { raw: 1_330_000 }, Vec3::one()))
}

/// The material of the glass spheres.
#[verifier::when_used_as_spec(spec_glass)]
pub fn glass() -> (m: MaterialObject)
    ensures
        m == spec_glass(),
{
    MaterialObject::Dielectric(Dielectric::new(Scalar { raw: 1_330_000 }, Vec3::one()))
}

pub open spec fn spec_small_material(d: SphereDraw) -> MaterialObject {
    if d.choice.raw < 650_000 {
        MaterialObject::spec_matte(d.tint_a.times(d.tint_b))
    } else if d.choice.raw < 900_000 {
        MaterialObject::Metal(Metal { fuzziness: d.fuzz, albedo: d.albedo })
    } else {
        spec_glass()
    }
}

/// The material of a small sphere: matte for a choice below 0.65, metal for
/// one below 0.9, else glass.
#[verifier::when_used_as_spec(spec_small_material)]
pub fn small_material(d: SphereDraw) -> (m: MaterialObject)
    ensures
        m == spec_small_material(d),
{
    if d.choice.raw < 650_000 {
        MaterialObject::matte(d.tint_a.times(d.tint_b))
    } else if d.choice.raw < 900_000 {
        MaterialObject::Metal(Metal { fuzziness: d.fuzz, albedo: d.albedo })
    } else {
        glass()
    }
}

pub open spec fn spec_small_center(i: i64, j: i64, d: SphereDraw) -> Vec3 {
    let pitch = Scalar { raw: 1_200_000 };
    Vec3(
        Scalar::from_int(i).times(pitch).plus(d.dx),
        Scalar { raw: 300_000 },
        Scalar::from_int(j).times(pitch).plus(d.dz),
    )
}

/// The centre of the small sphere at place `(i, j)` of the grid: the grid
/// has a pitch of 1.2, the sphere lies on the ground and is off its place by
/// `(dx, dz)`.
#[verifier::when_used_as_spec(spec_small_center)]
pub fn small_center(i: i64, j: i64, d: SphereDraw) -> (c: Vec3)
    ensures
        c == spec_small_center(i, j, d),
{
    let pitch = Scalar { raw: 1_200_000 };
    Vec3(
        Scalar::from_int(i).times(pitch).plus(d.dx),
        Scalar { raw: 300_000 },
        Scalar::from_int(j).times(pitch).plus(d.dz),
    )
}

pub open spec fn spec_small_sphere(i: i64, j: i64, d: SphereDraw, bounce: bool) -> Hittable {
    let center = spec_small_center(i, j, d);
    let mat = spec_small_material(d);
    let radius = Scalar { raw: 300_000 };
    if bounce && mat is Lambertian {
        Hittable::BouncingSphere(
            BouncingSphere::spec_rising(
                center,
                radius,
                d.height,
                Scalar::zero(),
                Scalar { raw: 500_000 },
                mat,
            ),
        )
    } else {
        Hittable::Sphere(Sphere { center, radius, mat })
    }
}

/// The small sphere at place `(i, j)` of the grid for the draws `d`: of
/// radius 0.3; if `bounce` is set and it is matte, it rises by the drawn
/// height between the times 0 and 0.5.
pub fn small_sphere(i: i64, j: i64, d: &SphereDraw, bounce: bool) -> (h: Hittable)
    ensures
        h == spec_small_sphere(i, j, *d, bounce),
{
    let center = small_center(i, j, *d);
    let mat = small_material(*d);
    let radius = Scalar { raw: 300_000 };
    let matte = match mat {
        MaterialObject::Lambertian(_) => true,
        _ => false,
    };
    if bounce && matte {
        Hittable::BouncingSphere(
            BouncingSphere::rising(
                center,
                radius,
                d.height,
                Scalar::zero(),
                Scalar { raw: 500_000 },
                mat,
            ),
        )
    } else {
        Hittable::Sphere(Sphere { center, radius, mat })
    }
}

/// The row of the grid in which small sphere number `k` lies.
pub open spec fn grid_row(k: int) -> int {
    k / 22 - 11
}

/// The column of the grid in which small sphere number `k` lies. No sphere
/// lies in column 0.
pub open spec fn grid_column(k: int) -> int {
    let c = k % 22;
    if c < 11 {
        c - 11
    } else {
        c - 10
    }
}

/// `h` is a small sphere that may lie at place number `k`.
pub open spec fn is_grid_sphere(h: Hittable, k: int, bounce: bool) -> bool {
    exists|d: SphereDraw|
        d.admissible() && h == #[trigger] spec_small_sphere(
            grid_row(k) as i64,
            grid_column(k) as i64,
            d,
            bounce,
        )
}

/// The checkered ground: a sphere of radius 1000 under the scene.
pub open spec fn spec_ground() -> Hittable {
    Hittable::Sphere(
        Sphere {
            center: Vec3(
                Scalar::from_int(0),
                Scalar::from_int((-1000) as i64),
                Scalar::from_int((-1) as i64),
            ),
            radius: Scalar::from_int(1000),
            mat: MaterialObject::Lambertian(
                LambertianDiffuse {
                    texture: TextureObject::Checker(
                        CheckerTexture {
                            odd_color: SolidColor { color: Vec3::one() },
                            even_color: SolidColor {
                                color: Vec3(
                                    Scalar { raw: 200_000 },
                                    Scalar { raw: 300_000 },
                                    Scalar { raw: 100_000 },
                                ),
                            },
                        },
                    ),
                },
            ),
        },
    )
}

/// A large sphere: of radius 1, on the ground at `x`.
pub open spec fn spec_giant(x: i64, mat: MaterialObject) -> Hittable {
    Hittable::Sphere(
        Sphere {
            center: Vec3(Scalar::from_int(x), Scalar::from_int(1), Scalar::from_int(0)),
            radius: Scalar::from_int(1),
            mat,
        },
    )
}

/// Builds a large sphere.
#[verifier::when_used_as_spec(spec_giant)]
pub fn giant(x: i64, mat: MaterialObject) -> (h: Hittable)
    ensures
        h == spec_giant(x, mat),
{
    Hittable::Sphere(
        Sphere {
            center: Vec3(Scalar::from_int(x), Scalar::from_int(1), Scalar::from_int(0)),
            radius: Scalar::from_int(1),
            mat,
        },
    )
}

/// The metal of the third large sphere.
pub open spec fn spec_bronze() -> MaterialObject {
    MaterialObject::Metal(
        Metal {
            fuzziness: Scalar { raw: 100_000 },
            albedo: Vec3(Scalar { raw: 700_000 }, Scalar { raw: 600_000 }, Scalar { raw: 500_000 }),
        },
    )
}

impl SceneConfig for RandomSpheresScene {
    /// The camera stands at (13, 2, 4) and looks at the origin, with a field
    /// of view of 20 degrees, an image half again as wide as high, a pinhole
    /// lens, and a shutter open from 0 for 0.25.
    open spec fn camera(&self) -> Camera {
        let eye = Vec3(Scalar::from_int(13), Scalar::from_int(2), Scalar::from_int(4));
        let target = Vec3(Scalar::from_int(0), Scalar::from_int(0), Scalar::from_int(0));
        Camera::spec_look_from(
            eye,
            target,
            Vec3(Scalar::zero(), Scalar::one(), Scalar::zero()),
            Scalar::from_int(20),
            Scalar { raw: 1_500_000 },
            Scalar::zero(),
            target.minus(eye).length(),
            Scalar::zero(),
            Scalar { raw: 250_000 },
        )
    }

    /// Under daylight, and with the box round all objects up to date, the
    /// world holds the ground, then the 506 small spheres row by row, then
    /// the three large ones: a matte one of a random tint, a glass one and a
    /// metal one.
    open spec fn builds(&self, w: World) -> bool {
        &&& w.skybox is None
        &&& w.metadata_current()
        &&& w@.len() == 510
        &&& w@[0] == spec_ground()
        &&& forall|k: int| 1 <= k <= 506 ==> is_grid_sphere(#[trigger] w@[k], k - 1, self.bounce)
        &&& exists|tint: Color|
            SolidColor::is_tint(tint) && w@[507] == #[trigger] spec_giant(
                (-4) as i64,
                MaterialObject::spec_matte(tint),
            )
        &&& w@[508] == spec_giant(0, spec_glass())
        &&& w@[509] == spec_giant(4, spec_bronze())
    }

    fn get_camera(&self) -> (c: Camera) {
        let look_from = Vec3::from_ints(13, 2, 4);
        let look_at = Vec3::from_ints(0, 0, 0);
        Camera::look_from(
            look_from,
            look_at,
            Vec3(Scalar::zero(), Scalar::one(), Scalar::zero()),
            Scalar::from_int(20),
            Scalar { raw: 1_500_000 },
            Scalar::zero(),
            look_at.minus(look_from).length(),
            Scalar::zero(),
            Scalar { raw: 250_000 },
        )
    }

    fn get_world(&self) -> (w: World) {
        let mut world = World::new();
        let ground = Hittable::Sphere(
            Sphere {
                center: Vec3::from_ints(0, -1000, -1),
                radius: Scalar::from_int(1000),
                mat: MaterialObject::Lambertian(
                    LambertianDiffuse {
                        texture: TextureObject::Checker(
                            CheckerTexture {
                                odd_color: SolidColor { color: Vec3::one() },
                                even_color: SolidColor {
                                    color: Vec3(
                                        Scalar { raw: 200_000 },
                                        Scalar { raw: 300_000 },
                                        Scalar { raw: 100_000 },
                                    ),
                                },
                            },
                        ),
                    },
                ),
            },
        );
        world.add_hittable(ground);
        let mut i: i64 = -11;
        while i <= 11
            invariant
                -11 <= i <= 12,
                world.skybox is None,
                world@.len() == 1 + (i + 11) * 22,
                world@[0] == spec_ground(),
                forall|k: int|
                    1 <= k < world@.len() ==> is_grid_sphere(
                        #[trigger] world@[k],
                        k - 1,
                        self.bounce,
                    ),
            decreases 12 - i,
        {
            let mut j: i64 = -11;
            while j <= 11
                invariant
                    -11 <= i <= 11,
                    -11 <= j <= 12,
                    world.skybox is None,
                    world@.len() == 1 + (i + 11) * 22 + (if j <= 0 {
                        j + 11
                    } else {
                        j + 10
                    }),
                    world@[0] == spec_ground(),
                    forall|k: int|
                        1 <= k < world@.len() ==> is_grid_sphere(
                            #[trigger] world@[k],
                            k - 1,
                            self.bounce,
                        ),
                decreases 12 - j,
            {
                if j != 0 {
                    let d = SphereDraw::draw();
                    let b = small_sphere(i, j, &d, self.bounce);
                    proof {
                        let k = world@.len() - 1;
                        assert(grid_row(k) == i);
                        assert(grid_column(k) == j);
                        assert(is_grid_sphere(b, k, self.bounce));
                    }
                    world.add_hittable(b);
                }
                j = j + 1;
            }
            i = i + 1;
        }
        let tint = SolidColor::random();
        let b1 = giant(-4, MaterialObject::matte(tint.color));
        let b2 = giant(0, glass());
        let b3 = giant(
            4,
            MaterialObject::Metal(
                Metal {
                    fuzziness: Scalar { raw: 100_000 },
                    albedo: Vec3(
                        Scalar { raw: 700_000 },
                        Scalar { raw: 600_000 },
                        Scalar { raw: 500_000 },
                    ),
                },
            ),
        );
        world.add_hittable(b1);
        world.add_hittable(b2);
        world.add_hittable(b3);
        world.update_metadata();
        assert(world@[507] == spec_giant((-4) as i64, MaterialObject::spec_matte(tint.color)));
        world
    }
}

} // verus!
