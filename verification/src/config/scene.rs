//! What a scene has to provide.

use crate::object::world::World;
use crate::render::camera::Camera;
use vstd::prelude::*;

verus! {

/// A scene: a world and the camera that looks at it.
pub trait SceneConfig {
    /// The camera of the scene.
    spec fn camera(&self) -> Camera;

    /// `w` is a world that the scene may build.
    spec fn builds(&self, w: World) -> bool;

    /// Sets up the camera.
    fn get_camera(&self) -> (c: Camera)
        ensures
            c == self.camera(),
    ;

    /// Builds the world.
    fn get_world(&self) -> (w: World)
        ensures
            self.builds(w),
    ;
}

} // verus!
