//! The Cornell box: a room with a red and a green wall, a lamp in the
//! ceiling, and two white blocks.

use crate::config::scene::SceneConfig;
use crate::object::cube::Cube;
use crate::object::hittable::Hittable;
use crate::object::material::MaterialObject;
use crate::object::rect::{AxisRect, Plane};
use crate::object::rotate::RotateY;
use crate::object::world::World;
use crate::render::camera::Camera;
use crate::render::skybox::ColorGradientSkyBox;
use crate::utils::elementary::{spec_cos, spec_sin, spec_to_radians};
use crate::utils::scalar::Scalar;
use crate::utils::vec3::Vec3;
use vstd::prelude::*;

verus! {

/// The Cornell box.
#[derive(Clone, Copy, Debug)]
pub struct CornellBoxScene {}

impl CornellBoxScene {
    /// The red of the right wall.
    pub open spec fn red() -> MaterialObject {
        MaterialObject::spec_matte(
            Vec3(Scalar { raw: 650_000 }, Scalar { raw: 50_000 }, Scalar { raw: 50_000 }),
        )
    }

    /// The white of floor, ceiling, back wall and blocks.
    pub open spec fn white() -> MaterialObject {
        MaterialObject::spec_matte(
            Vec3(Scalar { raw: 730_000 }, Scalar { raw: 730_000 }, Scalar { raw: 730_000 }),
        )
    }

    /// The green of the left wall.
    pub open spec fn green() -> MaterialObject {
        MaterialObject::spec_matte(
            Vec3(Scalar { raw: 120_000 }, Scalar { raw: 450_000 }, Scalar { raw: 150_000 }),
        )
    }

    /// The lamp: white, fifteen times as bright as a white wall in full light.
    pub open spec fn light() -> MaterialObject {
        MaterialObject::spec_lamp(Vec3::one(), Scalar::from_int(15))
    }

    /// A wall of the room: the square from 0 to 555 in `plane`, at `k`.
    pub open spec fn wall(plane: Plane, k: i64, mat: MaterialObject) -> Hittable {
        Hittable::Rect(
            AxisRect {
                plane,
                a0: Scalar::zero(),
                a1: Scalar::from_int(555),
                b0: Scalar::zero(),
                b1: Scalar::from_int(555),
                k: Scalar::from_int(k),
                mat,
            },
        )
    }

    /// The lamp in the ceiling.
    pub open spec fn lamp() -> Hittable {
        Hittable::Rect(
            AxisRect {
                plane: Plane::XZ,
                a0: Scalar::from_int(213),
                a1: Scalar::from_int(343),
                b0: Scalar::from_int(227),
                b1: Scalar::from_int(332),
                k: Scalar::from_int(554),
                mat: Self::light(),
            },
        )
    }

    /// A white block between `min` and `max`, turned by `degrees`.
    pub open spec fn block(min: Vec3, max: Vec3, degrees: i64) -> Hittable {
        let theta = spec_to_radians(Scalar::from_int(degrees));
        Hittable::RotateY(
            RotateY {
                inner: Box::new(Hittable::Cube(Cube { min, max, mat: Self::white() })),
                sin_theta: spec_sin(theta),
                cos_theta: spec_cos(theta),
            },
        )
    }

    /// The objects of the scene: left, right, floor, ceiling, back, lamp,
    /// low block, tall block.
    pub open spec fn objects() -> Seq<Hittable> {
        Seq::<Hittable>::empty().push(Self::wall(Plane::YZ, 555, Self::green())).push(
            Self::wall(Plane::YZ, 0, Self::red()),
        ).push(Self::wall(Plane::XZ, 0, Self::white())).push(
            Self::wall(Plane::XZ, 555, Self::white()),
        ).push(Self::wall(Plane::XY, 0, Self::white())).push(Self::lamp()).push(
            Self::block(
                Vec3(Scalar::from_int(265), Scalar::from_int(0), Scalar::from_int(295)),
                Vec3(Scalar::from_int(430), Scalar::from_int(165), Scalar::from_int(460)),
                (-5) as i64,
            ),
        ).push(
            Self::block(
                Vec3(Scalar::from_int(130), Scalar::from_int(0), Scalar::from_int(100)),
                Vec3(Scalar::from_int(295), Scalar::from_int(330), Scalar::from_int(300)),
                10,
            ),
        )
    }

    /// Where the camera stands.
    pub open spec fn eye() -> Vec3 {
        Vec3(Scalar::from_int(273), Scalar::from_int(273), Scalar::from_int(1300))
    }

    /// What the camera looks at.
    pub open spec fn target() -> Vec3 {
        Vec3(Scalar::from_int(273), Scalar::from_int(273), Scalar::from_int(0))
    }
}

impl SceneConfig for CornellBoxScene {
    /// The camera stands in front of the open side and looks into the room,
    /// with a field of view of 40 degrees, a square image, a pinhole lens
    /// focused on the back wall, and a shutter open from 0 for 0.01.
    open spec fn camera(&self) -> Camera {
        Camera::spec_look_from(
            Self::eye(),
            Self::target(),
            Vec3(Scalar::zero(), Scalar::one(), Scalar::zero()),
            Scalar::from_int(40),
            Scalar::one(),
            Scalar::zero(),
            Self::target().minus(Self::eye()).length(),
            Scalar::zero(),
            Scalar { raw: 10_000 },
        )
    }

    /// The world holds the objects of the scene in their order, in darkness,
    /// with the box round them up to date.
    open spec fn builds(&self, w: World) -> bool {
        w@ == Self::objects() && w.skybox == Some(ColorGradientSkyBox::darkness()) && w.metadata_current()
    }

    fn get_camera(&self) -> (c: Camera) {
        let look_from = Vec3::from_ints(273, 273, 1300);
        let look_at = Vec3::from_ints(273, 273, 0);
        Camera::look_from(
            look_from,
            look_at,
            Vec3(Scalar::zero(), Scalar::one(), Scalar::zero()),
            Scalar::from_int(40),
            Scalar::one(),
            Scalar::zero(),
            look_at.minus(look_from).length(),
            Scalar::zero(),
            Scalar { raw: 10_000 },
        )
    }

    fn get_world(&self) -> (w: World) {
        let red = MaterialObject::matte(
            Vec3(Scalar { raw: 650_000 }, Scalar { raw: 50_000 }, Scalar { raw: 50_000 }),
        );
        let white = MaterialObject::matte(
            Vec3(Scalar { raw: 730_000 }, Scalar { raw: 730_000 }, Scalar { raw: 730_000 }),
        );
        let green = MaterialObject::matte(
            Vec3(Scalar { raw: 120_000 }, Scalar { raw: 450_000 }, Scalar { raw: 150_000 }),
        );
        let light = MaterialObject::lamp(Vec3::one(), Scalar::from_int(15));
        let mut world = World::new();
        let lo = (Scalar::zero(), Scalar::zero());
        let hi = (Scalar::from_int(555), Scalar::from_int(555));
        let left = Hittable::Rect(AxisRect::yz(lo, hi, Scalar::from_int(555), green));
        let right = Hittable::Rect(AxisRect::yz(lo, hi, Scalar::from_int(0), red));
        let up = Hittable::Rect(AxisRect::xz(lo, hi, Scalar::from_int(555), white));
        let down = Hittable::Rect(AxisRect::xz(lo, hi, Scalar::from_int(0), white));
        let behind = Hittable::Rect(AxisRect::xy(lo, hi, Scalar::from_int(0), white));
        let lamp = Hittable::Rect(
            AxisRect::xz(
                (Scalar::from_int(213), Scalar::from_int(227)),
                (Scalar::from_int(343), Scalar::from_int(332)),
                Scalar::from_int(554),
                light,
            ),
        );
        let c1 = Hittable::Cube(
            Cube::new(Vec3::from_ints(265, 0, 295), Vec3::from_ints(430, 165, 460), white),
        );
        let c2 = Hittable::Cube(
            Cube::new(Vec3::from_ints(130, 0, 100), Vec3::from_ints(295, 330, 300), white),
        );
        let rc1 = Hittable::RotateY(RotateY::new(c1, Scalar::from_int(-5)));
        let rc2 = Hittable::RotateY(RotateY::new(c2, Scalar::from_int(10)));
        world.add_hittable(left);
        world.add_hittable(right);
        world.add_hittable(down);
        world.add_hittable(up);
        world.add_hittable(behind);
        world.add_hittable(lamp);
        world.add_hittable(rc1);
        world.add_hittable(rc2);
        world.set_skybox(ColorGradientSkyBox { v1: Vec3::zero(), v2: Vec3::zero() });
        world.update_metadata();
        world
    }
}

} // verus!
