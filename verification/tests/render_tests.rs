use ray_tracer::object::{AxisRect, Hittable, MaterialObject, World};
use ray_tracer::render::integrator::pixel_coordinate;
use ray_tracer::render::{mean, render_pixel, sample_pixel, Camera};
use ray_tracer::utils::scalar::Scalar;
use ray_tracer::utils::vec3::Vec3;

fn sc(x: f64) -> Scalar {
    Scalar::new((x * 1e6).round() as i64)
}

fn v(x: f64, y: f64, z: f64) -> Vec3 {
    Vec3::new(sc(x), sc(y), sc(z))
}

#[test]
fn pixel_coordinates_run_from_zero_to_one() {
    assert_eq!(pixel_coordinate(0, 4, sc(0.0)), sc(0.0));
    assert_eq!(pixel_coordinate(0, 4, sc(0.5)), sc(0.125));
    assert_eq!(pixel_coordinate(3, 4, sc(0.5)), sc(0.875));
    assert_eq!(pixel_coordinate(3, 4, sc(0.999_999)).raw, 999_999);
    assert_eq!(pixel_coordinate(249, 500, sc(0.0)), sc(0.498));
    // an image without pixels: the quotient by zero is the end of the range
    assert_eq!(pixel_coordinate(1, 0, sc(0.0)).raw, i64::MAX);
}

#[test]
fn mean_of_colors() {
    assert_eq!(mean(&vec![]), Vec3::zero());
    assert_eq!(mean(&vec![v(0.2, 0.4, 0.6)]), v(0.2, 0.4, 0.6));
    assert_eq!(
        mean(&vec![v(0.2, 0.4, 0.6), v(0.4, 0.0, 1.0), v(0.0, 0.2, 0.2), v(0.2, 0.2, 0.2)]),
        v(0.2, 0.2, 0.5)
    );
    assert_eq!(mean(&vec![v(1.0, 0.0, 0.0), v(0.0, 0.0, 0.0), v(0.0, 0.0, 0.0)]).0.raw, 333_333);
}

fn lamp_world() -> (World, Camera) {
    let mut w = World::new();
    w.add_hittable(Hittable::Rect(AxisRect::xy(
        (sc(-10.0), sc(-10.0)),
        (sc(10.0), sc(10.0)),
        sc(-1.0),
        MaterialObject::lamp(v(1.0, 0.5, 0.25), sc(2.0)),
    )));
    let c = Camera::new(Vec3::zero(), v(-2.0, -1.0, -1.0), sc(4.0), sc(2.0));
    (w, c)
}

#[test]
fn pixel_of_a_lamp_has_the_color_of_the_lamp() {
    let (w, c) = lamp_world();
    for (col, row) in [(0, 0), (7, 3), (9, 4)] {
        assert_eq!(sample_pixel(&c, &w, col, row, 10, 5, 8), v(2.0, 1.0, 0.5));
        assert_eq!(render_pixel(&c, &w, col, row, 10, 5, 7, 8), v(2.0, 1.0, 0.5));
    }
    assert_eq!(render_pixel(&c, &w, 3, 3, 10, 5, 0, 8), Vec3::zero());
    assert_eq!(render_pixel(&c, &w, 3, 3, 10, 5, 7, 0), Vec3::zero());
}

#[test]
fn pixel_of_the_sky_lies_between_its_colors() {
    let w = World::new();
    let c = Camera::new(Vec3::zero(), v(-2.0, -1.0, -1.0), sc(4.0), sc(2.0));
    let top = render_pixel(&c, &w, 5, 4, 10, 5, 16, 8);
    let bottom = render_pixel(&c, &w, 5, 0, 10, 5, 16, 8);
    assert!(top.0.raw < bottom.0.raw);
    for p in [top, bottom] {
        assert!(500_000 <= p.0.raw && p.0.raw <= 1_000_000);
        assert!(700_000 <= p.1.raw && p.1.raw <= 1_000_000);
        assert!(999_990 <= p.2.raw && p.2.raw <= 1_000_000);
    }
}
