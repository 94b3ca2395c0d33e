//! The path tracer: the light that arrives along a ray.

use crate::object::material::{FilteredRay, Material, ScatterSample};
use crate::object::record::HitRecord;
use crate::object::world::World;
use crate::render::skybox::ColorGradientSkyBox;
use crate::utils::ray::Ray;
use crate::render::camera::Camera;
use crate::utils::sampling::{is_disk_sample, is_fraction, unit_interval};
use crate::utils::scalar::Scalar;
use crate::utils::vec3::{Color, Vec3};
use vstd::prelude::*;

verus! {

/// How far from its origin a ray must travel before a hit counts, so that a
/// scattered ray does not hit the surface it leaves: 0.001.
pub open spec fn spec_epsilon() -> Scalar {
    Scalar { raw: 1_000 }
}

pub open spec fn spec_shade(h: HitRecord, scattered: Option<FilteredRay>, incoming: Color) -> Color {
    let emitted = h.mat.emitted(h.u, h.v, h.p);
    match scattered {
        Some(f) => emitted.plus(f.attenuation.times(incoming)),
        None => emitted,
    }
}

/// The light that leaves the hit `h` against the ray: what the surface emits
/// and, when the ray was scattered, the light `incoming` along the scattered
/// ray, filtered by the attenuation.
pub fn shade(h: &HitRecord, scattered: &Option<FilteredRay>, incoming: Color) -> (c: Color)
    ensures
        c == spec_shade(*h, *scattered, incoming),
{
    let emitted = h.mat.emit(h.u, h.v, h.p);
    match scattered {
        Some(f) => emitted.plus(f.attenuation.times(incoming)),
        None => emitted,
    }
}

/// What `ray` hits first in `w`, for the draws `samples` of the media.
pub open spec fn first_hit(ray: Ray, w: World, samples: Seq<Scalar>) -> Option<HitRecord> {
    w.spec_hit(ray, spec_epsilon(), Scalar::infinity(), samples)
}

/// The ray that `ray` is scattered into at its first hit, if it hits and is
/// scattered.
pub open spec fn next_ray(ray: Ray, w: World, samples: Seq<Scalar>, s: ScatterSample) -> Option<Ray> {
    match first_hit(ray, w, samples) {
        Some(h) => match h.mat.scattered_with(ray, h, s) {
            Some(f) => Some(f.scattered),
            None => None,
        },
        None => None,
    }
}

/// The light along `ray` after one step: the background if nothing is hit,
/// else the light that leaves the first hit when `incoming` arrives along the
/// scattered ray.
pub open spec fn bounce(
    ray: Ray,
    w: World,
    samples: Seq<Scalar>,
    s: ScatterSample,
    incoming: Color,
) -> Color {
    match first_hit(ray, w, samples) {
        Some(h) => spec_shade(h, h.mat.scattered_with(ray, h, s), incoming),
        None => w.spec_background(ray.dir),
    }
}

/// `c` is a colour that tracing `ray` through `w` for at most `depth` steps
/// may give: black when no step is left; else one step, for some draws, with
/// a colour that tracing the scattered ray for one step less may give.
pub open spec fn is_trace(ray: Ray, w: World, depth: nat, c: Color) -> bool
    decreases depth,
{
    if depth == 0 {
        c == Vec3::zero()
    } else {
        exists|samples: Seq<Scalar>, s: ScatterSample, incoming: Color|
            {
                &&& w.admits(samples)
                &&& s.admissible()
                &&& c == #[trigger] bounce(ray, w, samples, s, incoming)
                &&& next_ray(ray, w, samples, s) matches Some(r2) ==> is_trace(
                    r2,
                    w,
                    (depth - 1) as nat,
                    incoming,
                )
            }
    }
}

/// The light that arrives against `r` from the scene `w`, followed over at
/// most `depth` scatterings.
///
/// With no step left the result is black. A ray that hits nothing brings the
/// background. A ray that hits brings what the surface emits, and, if it is
/// scattered, the light along the scattered ray, filtered by the surface.
pub fn ray_color(r: &Ray, w: &World, depth: u8) -> (c: Color)
    ensures
        is_trace(*r, *w, depth as nat, c),
        depth == 0 ==> c == Vec3::zero(),
    decreases depth,
{
    if depth == 0 {
        return Vec3::zero();
    }
    let found = w.hit(r, Scalar { raw: 1_000 }, Scalar::infinity());
    let ghost samples = choose|samples: Seq<Scalar>|
        w.admits(samples) && found == #[trigger] w.spec_hit(
            *r,
            spec_epsilon(),
            Scalar::infinity(),
            samples,
        );
    match found {
        Some(h) => {
            let scattered = h.mat.scatter(r, &h);
            let ghost s = choose|s: ScatterSample|
                s.admissible() && scattered == #[trigger] h.mat.scattered_with(*r, h, s);
            let incoming = match scattered {
                Some(f) => ray_color(&f.scattered, w, depth - 1),
                None => Vec3::zero(),
            };
            let c = shade(&h, &scattered, incoming);
            assert(c == bounce(*r, *w, samples, s, incoming));
            c
        },
        None => {
            let c = w.background(r.dir);
            proof {
                ScatterSample::lemma_plain_admissible();
                assert(c == bounce(*r, *w, samples, ScatterSample::plain(), Vec3::zero()));
            }
            c
        },
    }
}

/// With no step left, tracing gives black, for any ray and any scene.
pub proof fn lemma_no_steps_left(ray: Ray, w: World, c: Color)
    requires
        is_trace(ray, w, 0, c),
    ensures
        c == Vec3::spec_zero(),
{
}

/// A ray that hits nothing, whatever is drawn, brings the background: in
/// darkness black; under a background without negative components a colour
/// between its two; under daylight one whose red is at least 0.5, whose green
/// is at least 0.7 and whose blue is 1.
pub proof fn lemma_escape_brings_background(ray: Ray, w: World, depth: nat, c: Color)
    requires
        depth > 0,
        is_trace(ray, w, depth, c),
        forall|samples: Seq<Scalar>|
            w.admits(samples) ==> (#[trigger] first_hit(ray, w, samples)) is None,
    ensures
        c == w.spec_background(ray.dir),
        w.sky() == ColorGradientSkyBox::darkness() ==> c == Vec3::spec_zero(),
        w.sky().is_visible() ==> w.sky().holds(c),
        w.skybox is None ==> 500_000 <= c.0.raw && 700_000 <= c.1.raw && c.2.raw == 1_000_000,
{
    ColorGradientSkyBox::lemma_daylight_is_bright(ray.dir);
    if w.sky().is_visible() {
        w.sky().lemma_color_between(ray.dir);
    }
    let (samples, s, incoming) = choose|samples: Seq<Scalar>, s: ScatterSample, incoming: Color|
        {
            &&& w.admits(samples)
            &&& s.admissible()
            &&& c == #[trigger] bounce(ray, w, samples, s, incoming)
            &&& next_ray(ray, w, samples, s) matches Some(r2) ==> is_trace(
                r2,
                w,
                (depth - 1) as nat,
                incoming,
            )
        };
    assert(first_hit(ray, w, samples) is None);
    ColorGradientSkyBox::lemma_darkness_is_black(ray.dir);
}

/// In darkness, a scene in which nothing sends out light is black along
/// every ray, however many steps are traced.
pub proof fn lemma_dark_world_is_black(ray: Ray, w: World, depth: nat, c: Color)
    requires
        w.emits_nothing(),
        w.sky() == ColorGradientSkyBox::darkness(),
        is_trace(ray, w, depth, c),
    ensures
        c == Vec3::spec_zero(),
    decreases depth,
{
    if depth > 0 {
        let (samples, s, incoming) = choose|
            samples: Seq<Scalar>,
            s: ScatterSample,
            incoming: Color,
        |
            {
                &&& w.admits(samples)
                &&& s.admissible()
                &&& c == #[trigger] bounce(ray, w, samples, s, incoming)
                &&& next_ray(ray, w, samples, s) matches Some(r2) ==> is_trace(
                    r2,
                    w,
                    (depth - 1) as nat,
                    incoming,
                )
            };
        ColorGradientSkyBox::lemma_darkness_is_black(ray.dir);
        w.lemma_hit_material(ray, spec_epsilon(), Scalar::spec_infinity(), samples);
        if let Some(h) = first_hit(ray, w, samples) {
            if let Some(f) = h.mat.scattered_with(ray, h, s) {
                lemma_dark_world_is_black(f.scattered, w, (depth - 1) as nat, incoming);
                Vec3::lemma_times_zero(f.attenuation);
            }
        }
    }
}

pub open spec fn spec_pixel_coordinate(index: u32, extent: u32, jitter: Scalar) -> Scalar {
    Scalar::from_int(index as i64).plus(jitter).over(Scalar::from_int(extent as i64))
}

/// The place in the image, from 0 to 1, of the point that lies the share
/// `jitter` into pixel `index` of `extent` pixels: `(index + jitter) / extent`.
#[verifier::when_used_as_spec(spec_pixel_coordinate)]
pub fn pixel_coordinate(index: u32, extent: u32, jitter: Scalar) -> (r: Scalar)
    ensures
        r == spec_pixel_coordinate(index, extent, jitter),
{
    Scalar::from_int(index as i64).plus(jitter).over(Scalar::from_int(extent as i64))
}

/// The sum of the colours, added up from the first on.
pub open spec fn total(colors: Seq<Color>) -> Color
    decreases colors.len(),
{
    if colors.len() == 0 {
        Vec3::zero()
    } else {
        total(colors.drop_last()).plus(colors.last())
    }
}

/// The number `n` as a machine integer, capped at the largest one.
pub open spec fn count_of(n: nat) -> i64 {
    if n > i64::MAX {
        i64::MAX
    } else {
        n as i64
    }
}

pub open spec fn spec_mean(colors: Seq<Color>) -> Color {
    total(colors).shrunk(Scalar::from_int(count_of(colors.len())))
}

/// The arithmetic mean of the colours; black for none.
pub fn mean(colors: &Vec<Color>) -> (c: Color)
    ensures
        c == spec_mean(colors@),
{
    let mut sum = Vec3::zero();
    let mut i: usize = 0;
    while i < colors.len()
        invariant
            i <= colors.len(),
            sum == total(colors@.take(i as int)),
        decreases colors.len() - i,
    {
        assert(colors@.take(i + 1).drop_last() =~= colors@.take(i as int));
        sum = sum.plus(colors[i]);
        i = i + 1;
    }
    assert(colors@.take(i as int) =~= colors@);
    let len: u64 = colors.len() as u64;
    let n: i64 = if len > 0x7fff_ffff_ffff_ffff {
        i64::MAX
    } else {
        len as i64
    };
    sum.shrunk(Scalar::from_int(n))
}

/// `c` is a colour that one sample of pixel `(column, row)` may give: the
/// light traced along a camera ray through a random point of the pixel.
pub open spec fn is_pixel_sample(
    camera: Camera,
    w: World,
    column: u32,
    row: u32,
    width: u32,
    height: u32,
    depth: nat,
    c: Color,
) -> bool {
    exists|jx: Scalar, jy: Scalar, lens: Vec3, moment: Scalar|
        {
            &&& is_fraction(jx)
            &&& is_fraction(jy)
            &&& is_disk_sample(lens)
            &&& is_fraction(moment)
            &&& is_trace(
                #[trigger] camera.spec_get_ray_with(
                    spec_pixel_coordinate(column, width, jx),
                    spec_pixel_coordinate(row, height, jy),
                    lens,
                    moment,
                ),
                w,
                depth,
                c,
            )
        }
}

/// One sample of pixel `(column, row)` of an image of `width` by `height`
/// pixels, rows counted from the bottom: a random point of the pixel, a
/// camera ray through it, and the light traced along that ray.
pub fn sample_pixel(
    camera: &Camera,
    w: &World,
    column: u32,
    row: u32,
    width: u32,
    height: u32,
    depth: u8,
) -> (c: Color)
    ensures
        is_pixel_sample(*camera, *w, column, row, width, height, depth as nat, c),
{
    let jx = unit_interval();
    let jy = unit_interval();
    let s = pixel_coordinate(column, width, jx);
    let t = pixel_coordinate(row, height, jy);
    let ray = camera.get_ray(s, t);
    let c = ray_color(&ray, w, depth);
    proof {
        let (lens, moment) = choose|lens: Vec3, moment: Scalar|
            is_disk_sample(lens) && is_fraction(moment) && ray
                == #[trigger] camera.spec_get_ray_with(s, t, lens, moment);
        assert(is_trace(camera.spec_get_ray_with(s, t, lens, moment), *w, depth as nat, c));
    }
    c
}

/// `c` is a colour that `render_pixel` may give: the mean of as many samples
/// of the pixel as were asked for.
pub open spec fn is_pixel_color(
    camera: Camera,
    w: World,
    column: u32,
    row: u32,
    width: u32,
    height: u32,
    samples: u32,
    depth: nat,
    c: Color,
) -> bool {
    exists|colors: Seq<Color>|
        {
            &&& colors.len() == samples
            &&& forall|k: int|
                0 <= k < colors.len() ==> is_pixel_sample(
                    camera,
                    w,
                    column,
                    row,
                    width,
                    height,
                    depth,
                    #[trigger] colors[k],
                )
            &&& c == #[trigger] spec_mean(colors)
        }
}

/// The colour of pixel `(column, row)`: the arithmetic mean of `samples`
/// independent samples of it.
pub fn render_pixel(
    camera: &Camera,
    w: &World,
    column: u32,
    row: u32,
    width: u32,
    height: u32,
    samples: u32,
    depth: u8,
) -> (c: Color)
    ensures
        is_pixel_color(*camera, *w, column, row, width, height, samples, depth as nat, c),
{
    let ghost mut colors: Seq<Color> = Seq::empty();
    let mut sum = Vec3::zero();
    let mut k: u32 = 0;
    while k < samples
        invariant
            k <= samples,
            colors.len() == k,
            sum == total(colors),
            forall|i: int|
                0 <= i < colors.len() ==> is_pixel_sample(
                    *camera,
                    *w,
                    column,
                    row,
                    width,
                    height,
                    depth as nat,
                    #[trigger] colors[i],
                ),
        decreases samples - k,
    {
        let c = sample_pixel(camera, w, column, row, width, height, depth);
        proof {
            assert(colors.push(c).drop_last() =~= colors);
            colors = colors.push(c);
        }
        sum = sum.plus(c);
        k = k + 1;
    }
    let c = sum.shrunk(Scalar::from_int(samples as i64));
    assert(c == spec_mean(colors));
    c
}

/// `c` is a colour that tracing may give along a path on which no surface
/// that is hit sends out light: like `is_trace`, with that said of each hit.
pub open spec fn is_unlit_trace(ray: Ray, w: World, depth: nat, c: Color) -> bool
    decreases depth,
{
    if depth == 0 {
        c == Vec3::zero()
    } else {
        exists|samples: Seq<Scalar>, s: ScatterSample, incoming: Color|
            {
                &&& w.admits(samples)
                &&& s.admissible()
                &&& c == #[trigger] bounce(ray, w, samples, s, incoming)
                &&& first_hit(ray, w, samples) matches Some(h) ==> h.mat.emitted(h.u, h.v, h.p)
                    == Vec3::spec_zero()
                &&& next_ray(ray, w, samples, s) matches Some(r2) ==> is_unlit_trace(
                    r2,
                    w,
                    (depth - 1) as nat,
                    incoming,
                )
            }
    }
}

/// In darkness, light arrives only along paths that reach a surface that
/// sends some out: a trace along a path on which no hit sends out light is a
/// trace, and it is black, whether the path leaves the scene or runs out of
/// steps, and whatever else the scene holds.
pub proof fn lemma_unlit_path_is_black(ray: Ray, w: World, depth: nat, c: Color)
    requires
        w.sky() == ColorGradientSkyBox::darkness(),
        is_unlit_trace(ray, w, depth, c),
    ensures
        is_trace(ray, w, depth, c),
        c == Vec3::spec_zero(),
    decreases depth,
{
    if depth > 0 {
        let (samples, s, incoming) = choose|
            samples: Seq<Scalar>,
            s: ScatterSample,
            incoming: Color,
        |
            {
                &&& w.admits(samples)
                &&& s.admissible()
                &&& c == #[trigger] bounce(ray, w, samples, s, incoming)
                &&& first_hit(ray, w, samples) matches Some(h) ==> h.mat.emitted(h.u, h.v, h.p)
                    == Vec3::spec_zero()
                &&& next_ray(ray, w, samples, s) matches Some(r2) ==> is_unlit_trace(
                    r2,
                    w,
                    (depth - 1) as nat,
                    incoming,
                )
            };
        ColorGradientSkyBox::lemma_darkness_is_black(ray.dir);
        if let Some(h) = first_hit(ray, w, samples) {
            if let Some(f) = h.mat.scattered_with(ray, h, s) {
                lemma_unlit_path_is_black(f.scattered, w, (depth - 1) as nat, incoming);
                Vec3::lemma_times_zero(f.attenuation);
            }
        }
        assert(is_trace(ray, w, depth, c));
    }
}

} // verus!
