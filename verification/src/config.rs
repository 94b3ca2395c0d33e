//! Ready-made scenes.

pub mod cornell_box;
pub mod random_spheres;
pub mod scene;

pub use crate::config::cornell_box::CornellBoxScene;
pub use crate::config::random_spheres::RandomSpheresScene;
pub use crate::config::scene::SceneConfig;
