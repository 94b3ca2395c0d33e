//! Scene objects: textures, materials, and what a ray can hit.

pub mod aabb;
pub mod constant_medium;
pub mod cube;
pub mod hittable;
pub mod material;
pub mod nearest;
pub mod record;
pub mod rect;
pub mod rotate;
pub mod sphere;
pub mod texture;
pub mod world;

pub use crate::object::aabb::Aabb;
pub use crate::object::constant_medium::ConstantMedium;
pub use crate::object::cube::Cube;
pub use crate::object::hittable::Hittable;
pub use crate::object::material::{
    Dielectric, DiffuseLight, FilteredRay, Isotropic, LambertianDiffuse, Material, MaterialObject,
    Metal, ScatterSample,
};
pub use crate::object::record::{Face, HitRecord};
pub use crate::object::rect::{AxisRect, Plane};
pub use crate::object::rotate::RotateY;
pub use crate::object::sphere::{BouncingSphere, Sphere};
pub use crate::object::texture::{CheckerTexture, SolidColor, Texture, TextureObject};
pub use crate::object::world::World;
