//! The camera: from a place in the image to a ray into the scene.

use crate::utils::elementary::{spec_tan, spec_to_radians, tan, to_radians};
use crate::utils::ray::Ray;
use crate::utils::sampling::{is_disk_sample, is_fraction, random_in_unit_disk, unit_interval};
use crate::utils::scalar::Scalar;
use crate::utils::vec3::Vec3;
use vstd::prelude::*;

verus! {

/// A camera with a thin lens and a shutter.
///
/// The image is the rectangle spanned by `horizontal` and `vertical` from
/// `lower_left`, in the plane of sharp focus. Rays start on the lens, a disk
/// of radius `lens_radius` round `origin` in the plane of `u` and `v`, at a
/// moment of the shutter window from `time0` to `time0 + duration`.
#[derive(Clone, Copy, Debug, PartialEq, Eq, Structural)]
pub struct Camera {
    pub origin: Vec3,
    pub lower_left: Vec3,
    pub horizontal: Vec3,
    pub vertical: Vec3,
    pub u: Vec3,
    pub v: Vec3,
    pub lens_radius: Scalar,
    pub time0: Scalar,
    pub duration: Scalar,
}

impl Camera {
    pub open spec fn spec_new(origin: Vec3, viewport_start: Vec3, hlength: Scalar, vlength: Scalar) -> Camera {
        Camera {
            origin,
            lower_left: viewport_start,
            horizontal: Vec3(hlength, Scalar::zero(), Scalar::zero()),
            vertical: Vec3(Scalar::zero(), vlength, Scalar::zero()),
            u: Vec3(Scalar::one(), Scalar::zero(), Scalar::zero()),
            v: Vec3(Scalar::zero(), Scalar::one(), Scalar::zero()),
            lens_radius: Scalar::zero(),
            time0: Scalar::zero(),
            duration: Scalar::zero(),
        }
    }

    /// A pinhole camera at `origin` whose image starts at `viewport_start`
    /// and extends by `hlength` along x and by `vlength` along y.
    #[verifier::when_used_as_spec(spec_new)]
    pub fn new(origin: Vec3, viewport_start: Vec3, hlength: Scalar, vlength: Scalar) -> (c: Camera)
        ensures
            c == Self::spec_new(origin, viewport_start, hlength, vlength),
    {
        Camera {
            origin,
            lower_left: viewport_start,
            horizontal: Vec3(hlength, Scalar::zero(), Scalar::zero()),
            vertical: Vec3(Scalar::zero(), vlength, Scalar::zero()),
            u: Vec3(Scalar::one(), Scalar::zero(), Scalar::zero()),
            v: Vec3(Scalar::zero(), Scalar::one(), Scalar::zero()),
            lens_radius: Scalar::zero(),
            time0: Scalar::zero(),
            duration: Scalar::zero(),
        }
    }

    pub open spec fn spec_look_from(
        look_from: Vec3,
        look_at: Vec3,
        up: Vec3,
        vfov: Scalar,
        aspect: Scalar,
        aperture: Scalar,
        focus: Scalar,
        shutter_start: Scalar,
        shutter_duration: Scalar,
    ) -> Camera {
        let two = Scalar::from_int(2);
        let half_height = spec_tan(spec_to_radians(vfov).over(two)).times(focus);
        let half_width = aspect.times(half_height);
        let w = look_from.minus(look_at).unit_vector();
        let u = up.cross(w).unit_vector();
        let v = w.cross(u);
        Camera {
            origin: look_from,
            lower_left: look_from.minus(u.scaled(half_width)).minus(v.scaled(half_height)).minus(
                w.scaled(focus),
            ),
            horizontal: u.scaled(two.times(half_width)),
            vertical: v.scaled(two.times(half_height)),
            u,
            v,
            lens_radius: aperture.over(two),
            time0: shutter_start,
            duration: shutter_duration,
        }
    }

    /// The camera at `look_from` that looks at `look_at`, with `up` upward in
    /// the image.
    ///
    /// `vfov` is the vertical field of view in degrees and `aspect` the width
    /// of the image over its height. The image lies at distance `focus`: its
    /// half height is `tan(vfov / 2) * focus`. The lens has diameter
    /// `aperture`. With `w` the unit vector from `look_at` to `look_from`, the
    /// image is spanned along `u = unit(up x w)` and `v = w x u`.
    #[verifier::when_used_as_spec(spec_look_from)]
    pub fn look_from(
        look_from: Vec3,
        look_at: Vec3,
        up: Vec3,
        vfov: Scalar,
        aspect: Scalar,
        aperture: Scalar,
        focus: Scalar,
        shutter_start: Scalar,
        shutter_duration: Scalar,
    ) -> (c: Camera)
        ensures
            c == Self::spec_look_from(
                look_from,
                look_at,
                up,
                vfov,
                aspect,
                aperture,
                focus,
                shutter_start,
                shutter_duration,
            ),
    {
        let two = Scalar::from_int(2);
        let half_height = tan(to_radians(vfov).over(two)).times(focus);
        let half_width = aspect.times(half_height);
        let w = look_from.minus(look_at).unit_vector();
        let u = up.cross(w).unit_vector();
        let v = w.cross(u);
        Camera {
            origin: look_from,
            lower_left: look_from.minus(u.scaled(half_width)).minus(v.scaled(half_height)).minus(
                w.scaled(focus),
            ),
            horizontal: u.scaled(two.times(half_width)),
            vertical: v.scaled(two.times(half_height)),
            u,
            v,
            lens_radius: aperture.over(two),
            time0: shutter_start,
            duration: shutter_duration,
        }
    }

    pub open spec fn spec_get_ray_with(&self, s: Scalar, t: Scalar, lens: Vec3, moment: Scalar) -> Ray {
        let rd = lens.scaled(self.lens_radius);
        let offset = self.u.scaled(rd.0).plus(self.v.scaled(rd.1));
        Ray {
            orig: self.origin.plus(offset),
            dir: self.lower_left.plus(self.horizontal.scaled(s)).plus(self.vertical.scaled(t)).minus(
                self.origin,
            ).minus(offset),
            t: self.time0.plus(moment.times(self.duration)),
        }
    }

    /// The ray through the place `(s, t)` of the image, both from 0 to 1,
    /// that starts at the point `lens` of the unit disk, scaled to the lens,
    /// at the share `moment` of the shutter window.
    #[verifier::when_used_as_spec(spec_get_ray_with)]
    pub fn get_ray_with(&self, s: Scalar, t: Scalar, lens: Vec3, moment: Scalar) -> (r: Ray)
        ensures
            r == self.spec_get_ray_with(s, t, lens, moment),
    {
        let rd = lens.scaled(self.lens_radius);
        let offset = self.u.scaled(rd.0).plus(self.v.scaled(rd.1));
        Ray {
            orig: self.origin.plus(offset),
            dir: self.lower_left.plus(self.horizontal.scaled(s)).plus(self.vertical.scaled(t)).minus(
                self.origin,
            ).minus(offset),
            t: self.time0.plus(moment.times(self.duration)),
        }
    }

    /// A ray through the place `(s, t)` of the image, from a random point of
    /// the lens at a random moment of the shutter window.
    pub fn get_ray(&self, s: Scalar, t: Scalar) -> (r: Ray)
        ensures
            exists|lens: Vec3, moment: Scalar|
                is_disk_sample(lens) && is_fraction(moment) && r == #[trigger] self.spec_get_ray_with(
                    s,
                    t,
                    lens,
                    moment,
                ),
    {
        let lens = random_in_unit_disk();
        let moment = unit_interval();
        self.get_ray_with(s, t, lens, moment)
    }
}

} // verus!
