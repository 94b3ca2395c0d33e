use ray_tracer::object::{
    Aabb, AxisRect, BouncingSphere, ConstantMedium, Cube, Face, Hittable, Isotropic,
    MaterialObject, Plane, RotateY, SolidColor, Sphere, TextureObject,
};
use ray_tracer::object::sphere::sphere_roots;
use ray_tracer::object::Material;
use ray_tracer::utils::elementary::neg_ln;
use ray_tracer::utils::ray::Ray;
use ray_tracer::utils::scalar::Scalar;
use ray_tracer::utils::vec3::Vec3;

fn sc(x: f64) -> Scalar {
    Scalar::new((x * 1e6).round() as i64)
}

fn v(x: f64, y: f64, z: f64) -> Vec3 {
    Vec3::new(sc(x), sc(y), sc(z))
}

fn val(s: Scalar) -> f64 {
    s.raw as f64 / 1e6
}

fn matte() -> MaterialObject {
    MaterialObject::matte(v(0.3, 0.5, 0.7))
}

fn eps() -> Scalar {
    sc(0.001)
}

fn far() -> Scalar {
    Scalar::infinity()
}

#[test]
fn ray_points() {
    let r = Ray::new(v(1.0, 2.0, 3.0), v(0.5, 0.0, -1.0), sc(0.25));
    assert_eq!(r.at(sc(2.0)), v(2.0, 2.0, 1.0));
    assert_eq!(r.origin(), v(1.0, 2.0, 3.0));
    assert_eq!(r.direction(), v(0.5, 0.0, -1.0));
    assert_eq!(r.time(), sc(0.25));
}

#[test]
fn sphere_roots_of_a_central_ray() {
    let r = Ray::new(Vec3::zero(), v(0.0, 0.0, -1.0), sc(0.0));
    let roots = sphere_roots(v(0.0, 0.0, -1.0), sc(0.5), &r);
    assert_eq!(roots, Some((sc(0.5), sc(1.5))));
    let miss = Ray::new(Vec3::zero(), v(0.0, 1.0, 0.0), sc(0.0));
    assert_eq!(sphere_roots(v(0.0, 0.0, -1.0), sc(0.5), &miss), None);
}

#[test]
fn sphere_is_hit_from_outside() {
    let s = Sphere::new(v(0.0, 0.0, -1.0), sc(0.5), matte());
    let r = Ray::new(Vec3::zero(), v(0.0, 0.0, -1.0), sc(0.0));
    let h = s.hit(&r, eps(), far()).unwrap();
    assert_eq!(h.t, sc(0.5));
    assert_eq!(h.p, v(0.0, 0.0, -0.5));
    assert_eq!(h.normal, v(0.0, 0.0, 1.0));
    assert_eq!(h.f, Face::Inward);
    assert_eq!(h.u, sc(0.0));
    assert_eq!(h.v, sc(0.0));
    assert_eq!(h.mat.get_type(), "LambertianDiffuse");
}

#[test]
fn sphere_is_hit_from_inside() {
    let s = Sphere::new(v(0.0, 0.0, -1.0), sc(0.5), matte());
    let r = Ray::new(v(0.0, 0.0, -1.0), v(0.0, 0.0, -1.0), sc(0.0));
    let h = s.hit(&r, eps(), far()).unwrap();
    assert_eq!(h.t, sc(0.5));
    assert_eq!(h.p, v(0.0, 0.0, -1.5));
    assert_eq!(h.normal, v(0.0, 0.0, 1.0));
    assert_eq!(h.f, Face::Outward);
}

#[test]
fn sphere_range_selects_the_root() {
    let s = Sphere::new(v(0.0, 0.0, -1.0), sc(0.5), matte());
    let r = Ray::new(Vec3::zero(), v(0.0, 0.0, -1.0), sc(0.0));
    assert_eq!(s.hit(&r, sc(0.6), far()).unwrap().t, sc(1.5));
    assert!(s.hit(&r, sc(0.5), sc(1.5)).is_none());
    assert!(s.hit(&r, sc(1.5), far()).is_none());
    assert!(s.hit(&r, eps(), sc(0.5)).is_none());
    assert_eq!(s.hit(&r, sc(0.499999), sc(0.500001)).unwrap().t, sc(0.5));
}

#[test]
fn sphere_is_missed() {
    let s = Sphere::new(v(0.0, 0.0, -1.0), sc(0.5), matte());
    let aside = Ray::new(Vec3::zero(), v(0.0, 1.0, 0.0), sc(0.0));
    assert!(s.hit(&aside, eps(), far()).is_none());
    let behind = Ray::new(Vec3::zero(), v(0.0, 0.0, 1.0), sc(0.0));
    assert!(s.hit(&behind, eps(), far()).is_none());
    let still = Ray::new(Vec3::zero(), Vec3::zero(), sc(0.0));
    assert!(s.hit(&still, eps(), far()).is_none());
}

#[test]
fn sphere_hit_points_lie_on_the_sphere() {
    let c = v(1.0, -2.0, -7.0);
    let radius = 2.5;
    let s = Sphere::new(c, sc(radius), matte());
    let mut hits = 0;
    for i in -10..=10 {
        for j in -10..=10 {
            let dir = v(1.0 + i as f64 * 0.03, -2.0 + j as f64 * 0.03, -7.0);
            let r = Ray::new(Vec3::zero(), dir, sc(0.0));
            if let Some(h) = s.hit(&r, eps(), far()) {
                hits += 1;
                let d = h.p.minus(c);
                let dist = f64::sqrt(val(d.0).powi(2) + val(d.1).powi(2) + val(d.2).powi(2));
                assert!((dist - radius).abs() < 1e-3, "{} {}: {}", i, j, dist);
                assert_eq!(h.p, r.at(h.t));
                let outward = d.shrunk(sc(radius));
                assert!(h.normal == outward || h.normal == outward.negated());
                assert_eq!(h.f, Face::Inward);
                assert_eq!(h.normal, outward);
            }
        }
    }
    assert!(hits > 300);
}

#[test]
fn bouncing_sphere_moves_with_time() {
    let b = BouncingSphere::new(
        v(0.0, 0.0, -5.0),
        v(0.0, 2.0, -5.0),
        sc(0.0),
        sc(1.0),
        sc(1.0),
        matte(),
    );
    assert_eq!(b.center_at(sc(0.0)), v(0.0, 0.0, -5.0));
    assert_eq!(b.center_at(sc(0.5)), v(0.0, 1.0, -5.0));
    assert_eq!(b.center_at(sc(1.0)), v(0.0, 2.0, -5.0));
    let early = Ray::new(Vec3::zero(), v(0.0, 0.0, -1.0), sc(0.0));
    assert_eq!(b.hit(&early, eps(), far()).unwrap().t, sc(4.0));
    let late = Ray::new(Vec3::zero(), v(0.0, 0.0, -1.0), sc(1.0));
    assert!(b.hit(&late, eps(), far()).is_none());
    let high = Ray::new(v(0.0, 2.0, 0.0), v(0.0, 0.0, -1.0), sc(1.0));
    assert_eq!(b.hit(&high, eps(), far()).unwrap().t, sc(4.0));
    let r = BouncingSphere::rising(v(1.0, 0.3, 2.0), sc(0.3), sc(0.4), sc(0.0), sc(0.5), matte());
    assert_eq!(r.center0, v(1.0, 0.3, 2.0));
    assert_eq!(r.center1, v(1.0, 0.7, 2.0));
    assert_eq!(r.time1, sc(0.5));
}

#[test]
fn rectangle_is_hit_inside_its_bounds() {
    let q = AxisRect::xy((sc(0.0), sc(0.0)), (sc(2.0), sc(4.0)), sc(-1.0), matte());
    let r = Ray::new(v(1.0, 1.0, 0.0), v(0.0, 0.0, -1.0), sc(0.0));
    let h = q.hit(&r, eps(), far()).unwrap();
    assert_eq!(h.t, sc(1.0));
    assert_eq!(h.p, v(1.0, 1.0, -1.0));
    assert_eq!(h.u, sc(0.5));
    assert_eq!(h.v, sc(0.25));
    assert_eq!(h.normal, v(0.0, 0.0, 1.0));
    assert_eq!(h.f, Face::Inward);
    let back = Ray::new(v(1.0, 1.0, -2.0), v(0.0, 0.0, 1.0), sc(0.0));
    let hb = q.hit(&back, eps(), far()).unwrap();
    assert_eq!(hb.normal, v(0.0, 0.0, -1.0));
    assert_eq!(hb.f, Face::Outward);
    let edge = Ray::new(v(2.0, 4.0, 0.0), v(0.0, 0.0, -1.0), sc(0.0));
    assert!(q.hit(&edge, eps(), far()).is_some());
}

#[test]
fn rectangle_is_missed() {
    let q = AxisRect::xy((sc(0.0), sc(0.0)), (sc(2.0), sc(4.0)), sc(-1.0), matte());
    let outside = Ray::new(v(2.5, 1.0, 0.0), v(0.0, 0.0, -1.0), sc(0.0));
    assert!(q.hit(&outside, eps(), far()).is_none());
    let parallel = Ray::new(v(1.0, 1.0, 0.0), v(1.0, 0.0, 0.0), sc(0.0));
    assert!(q.hit(&parallel, eps(), far()).is_none());
    let away = Ray::new(v(1.0, 1.0, 0.0), v(0.0, 0.0, 1.0), sc(0.0));
    assert!(q.hit(&away, eps(), far()).is_none());
    let r = Ray::new(v(1.0, 1.0, 0.0), v(0.0, 0.0, -1.0), sc(0.0));
    assert!(q.hit(&r, eps(), sc(1.0)).is_none());
    assert!(q.hit(&r, sc(1.0), far()).is_none());
}

#[test]
fn rectangles_in_the_other_planes() {
    let floor = AxisRect::xz((sc(0.0), sc(0.0)), (sc(2.0), sc(4.0)), sc(0.0), matte());
    assert_eq!(floor.plane, Plane::XZ);
    let down = Ray::new(v(1.0, 3.0, 3.0), v(0.0, -1.0, 0.0), sc(0.0));
    let h = floor.hit(&down, eps(), far()).unwrap();
    assert_eq!(h.t, sc(3.0));
    assert_eq!(h.u, sc(0.5));
    assert_eq!(h.v, sc(0.75));
    assert_eq!(h.normal, v(0.0, 1.0, 0.0));
    let wall = AxisRect::yz((sc(0.0), sc(0.0)), (sc(2.0), sc(4.0)), sc(5.0), matte());
    assert_eq!(wall.plane, Plane::YZ);
    let right = Ray::new(v(0.0, 1.0, 1.0), v(2.0, 0.0, 0.0), sc(0.0));
    let hw = wall.hit(&right, eps(), far()).unwrap();
    assert_eq!(hw.t, sc(2.5));
    assert_eq!(hw.normal, v(-1.0, 0.0, 0.0));
    assert_eq!(hw.u, sc(0.5));
    assert_eq!(hw.v, sc(0.25));
}

#[test]
fn cube_reports_its_nearest_side() {
    let c = Cube::new(v(-1.0, -1.0, -1.0), v(1.0, 1.0, 1.0), matte());
    let r = Ray::new(v(0.0, 0.0, 5.0), v(0.0, 0.0, -1.0), sc(0.0));
    let h = c.hit(&r, eps(), far()).unwrap();
    assert_eq!(h.t, sc(4.0));
    assert_eq!(h.p, v(0.0, 0.0, 1.0));
    let inside = Ray::new(Vec3::zero(), v(1.0, 0.0, 0.0), sc(0.0));
    assert_eq!(c.hit(&inside, eps(), far()).unwrap().t, sc(1.0));
    let behind = c.hit(&r, sc(4.0), far()).unwrap();
    assert_eq!(behind.t, sc(6.0));
    let aside = Ray::new(v(3.0, 0.0, 5.0), v(0.0, 0.0, -1.0), sc(0.0));
    assert!(c.hit(&aside, eps(), far()).is_none());
    let slanted = Ray::new(v(-3.0, 0.5, 0.0), v(1.0, 0.0, 0.25), sc(0.0));
    assert_eq!(c.hit(&slanted, eps(), far()).unwrap().t, sc(2.0));
}

#[test]
fn cube_sides() {
    let c = Cube::new(v(-1.0, -2.0, -3.0), v(1.0, 2.0, 3.0), matte());
    assert_eq!(c.side(0).plane, Plane::XY);
    assert_eq!(c.side(0).k, sc(3.0));
    assert_eq!(c.side(1).k, sc(-3.0));
    assert_eq!(c.side(2).plane, Plane::XZ);
    assert_eq!(c.side(2).k, sc(2.0));
    assert_eq!(c.side(3).k, sc(-2.0));
    assert_eq!(c.side(4).plane, Plane::YZ);
    assert_eq!(c.side(4).k, sc(1.0));
    assert_eq!(c.side(5).k, sc(-1.0));
    assert_eq!(c.side(4).a1, sc(2.0));
    assert_eq!(c.side(4).b1, sc(3.0));
}

#[test]
fn rotation_by_a_quarter_turn() {
    // a wall that faces +z, turned to face +x
    let wall = Hittable::Rect(AxisRect::xy((sc(-1.0), sc(-1.0)), (sc(1.0), sc(1.0)), sc(2.0), matte()));
    let turned = RotateY::new(wall, Scalar::from_int(90));
    assert!((turned.sin_theta.raw - 1_000_000).abs() <= 2);
    assert!(turned.cos_theta.raw.abs() <= 2);
    let obj = Hittable::RotateY(turned);
    let r = Ray::new(v(5.0, 0.0, 0.0), v(-1.0, 0.0, 0.0), sc(0.0));
    let h = obj.hit(&r, eps(), far()).unwrap();
    assert!((val(h.t) - 3.0).abs() < 1e-4, "{}", val(h.t));
    assert!((val(h.p.0) - 2.0).abs() < 1e-4);
    assert!((val(h.normal.0) - 1.0).abs() < 1e-4);
    assert!(val(h.normal.2).abs() < 1e-4);
    let old = Ray::new(v(0.0, 0.0, 5.0), v(0.0, 0.0, -1.0), sc(0.0));
    assert!(obj.hit(&old, eps(), far()).is_none());
}

#[test]
fn rotation_maps_vectors_there_and_back() {
    let inner = Hittable::Sphere(Sphere::new(Vec3::zero(), sc(1.0), matte()));
    let rot = RotateY::new(inner, Scalar::from_int(10));
    assert!((val(rot.sin_theta) - 0.173_648).abs() < 1e-5);
    assert!((val(rot.cos_theta) - 0.984_808).abs() < 1e-5);
    let p = v(3.0, 1.0, -2.0);
    let q = rot.to_world(rot.to_local(p));
    assert!((val(q.0) - 3.0).abs() < 1e-4);
    assert_eq!(q.1, sc(1.0));
    assert!((val(q.2) + 2.0).abs() < 1e-4);
    let l = rot.to_local(v(1.0, 0.0, 0.0));
    assert_eq!(l, Vec3::new(rot.cos_theta, sc(0.0), rot.sin_theta));
}

fn fog(density: f64) -> ConstantMedium {
    ConstantMedium::new(
        Hittable::Sphere(Sphere::new(Vec3::zero(), sc(1.0), matte())),
        sc(density),
        Isotropic { albedo: TextureObject::Solid(SolidColor::new(sc(0.9), sc(0.9), sc(0.9))) },
    )
}

#[test]
fn medium_scatters_after_the_free_flight() {
    let m = fog(1.0);
    let r = Ray::new(v(0.0, 0.0, -5.0), v(0.0, 0.0, 1.0), sc(0.0));
    // free flight -ln(0.5) = 0.693...
    let flight = neg_ln(sc(0.5));
    let h = m.scatter_inside(&r, eps(), far(), sc(4.0), sc(6.0), sc(0.5)).unwrap();
    assert_eq!(h.t, sc(4.0).plus(flight));
    assert!((val(h.t) - 4.693_147).abs() < 1e-4);
    assert_eq!(h.p, r.at(h.t));
    assert_eq!(h.mat.get_type(), "Isotropic");
    // a draw of 1 scatters at the entry
    let at_entry = m.scatter_inside(&r, eps(), far(), sc(4.0), sc(6.0), sc(1.0)).unwrap();
    assert_eq!(at_entry.t, sc(4.0));
}

#[test]
fn medium_lets_long_flights_pass() {
    let m = fog(1.0);
    let r = Ray::new(v(0.0, 0.0, -5.0), v(0.0, 0.0, 1.0), sc(0.0));
    // -ln(0.1) = 2.30 is longer than the 2 units inside
    assert!(m.scatter_inside(&r, eps(), far(), sc(4.0), sc(6.0), sc(0.1)).is_none());
    assert!(m.scatter_inside(&r, eps(), far(), sc(4.0), sc(6.0), sc(0.0)).is_none());
    // a thin medium lets more pass: flight 0.693 / 0.2 = 3.47
    assert!(fog(0.2).scatter_inside(&r, eps(), far(), sc(4.0), sc(6.0), sc(0.5)).is_none());
    // a dense one scatters early
    let dense = fog(10.0).scatter_inside(&r, eps(), far(), sc(4.0), sc(6.0), sc(0.5)).unwrap();
    assert!((val(dense.t) - 4.069_315).abs() < 1e-4);
}

#[test]
fn medium_stretch_is_cut_to_the_range() {
    let m = fog(1.0);
    let r = Ray::new(v(0.0, 0.0, -5.0), v(0.0, 0.0, 1.0), sc(0.0));
    // range ends before the entry
    assert!(m.scatter_inside(&r, eps(), sc(4.0), sc(4.0), sc(6.0), sc(0.9)).is_none());
    // range starts behind the exit
    assert!(m.scatter_inside(&r, sc(6.0), far(), sc(4.0), sc(6.0), sc(0.9)).is_none());
    // range starts inside: the flight starts there
    let h = m.scatter_inside(&r, sc(5.0), far(), sc(4.0), sc(6.0), sc(0.5)).unwrap();
    assert_eq!(h.t, sc(5.0).plus(neg_ln(sc(0.5))));
    // range ends inside: 0.693 no longer fits into 0.5
    assert!(m.scatter_inside(&r, eps(), sc(4.5), sc(4.0), sc(6.0), sc(0.5)).is_none());
    // origin inside the boundary: the flight starts at the origin
    let inside = Ray::new(Vec3::zero(), v(0.0, 0.0, 1.0), sc(0.0));
    let hi = m.scatter_inside(&inside, eps(), far(), sc(-1.0), sc(1.0), sc(0.5)).unwrap();
    assert_eq!(hi.t, sc(0.001).plus(neg_ln(sc(0.5))));
}

#[test]
fn medium_as_an_object() {
    let obj = Hittable::ConstantMedium(fog(1.0));
    assert!(obj.is_random());
    let r = Ray::new(v(0.0, 0.0, -5.0), v(0.0, 0.0, 2.0), sc(0.0));
    // the ray is inside from t = 2 to t = 3, a stretch of length 2
    let h = obj.hit_with(&r, eps(), far(), sc(0.5)).unwrap();
    assert!((val(h.t) - (2.0 + 0.693_147 / 2.0)).abs() < 1e-4, "{}", val(h.t));
    assert!(obj.hit_with(&r, eps(), far(), sc(0.1)).is_none());
    let aside = Ray::new(v(3.0, 0.0, -5.0), v(0.0, 0.0, 1.0), sc(0.0));
    assert!(obj.hit_with(&aside, eps(), far(), sc(0.9)).is_none());
    let mut hit = 0;
    for _ in 0..400 {
        if let Some(h) = obj.hit(&r, eps(), far()) {
            hit += 1;
            assert!(val(h.t) >= 2.0 && val(h.t) <= 3.0 + 1e-4);
        }
    }
    // the chance to scatter within 2 units is 1 - exp(-2) = 0.86
    assert!(hit > 280 && hit < 390, "{}", hit);
}

#[test]
fn surfaces_need_no_draw() {
    let s = Hittable::Sphere(Sphere::new(v(0.0, 0.0, -1.0), sc(0.5), matte()));
    assert!(!s.is_random());
    let r = Ray::new(Vec3::zero(), v(0.0, 0.0, -1.0), sc(0.0));
    let a = s.hit_with(&r, eps(), far(), sc(0.1)).unwrap();
    let b = s.hit_with(&r, eps(), far(), sc(0.9)).unwrap();
    let c = s.hit(&r, eps(), far()).unwrap();
    assert_eq!(a.t, sc(0.5));
    assert_eq!(b.t, sc(0.5));
    assert_eq!(c.t, sc(0.5));
    let turned = Hittable::RotateY(RotateY::new(Hittable::ConstantMedium(fog(1.0)), sc(30.0)));
    assert!(turned.is_random());
    let cube = Hittable::Cube(Cube::new(v(-1.0, -1.0, -1.0), v(1.0, 1.0, 1.0), matte()));
    assert!(!Hittable::RotateY(RotateY::new(cube, sc(30.0))).is_random());
}

#[test]
fn bounding_boxes() {
    let s = Sphere::new(v(1.0, 2.0, 3.0), sc(0.5), matte());
    assert_eq!(s.bounding_box(), Aabb::new(v(0.5, 1.5, 2.5), v(1.5, 2.5, 3.5)));
    let b = BouncingSphere::new(v(0.0, 0.0, 0.0), v(0.0, 2.0, 0.0), sc(0.0), sc(1.0), sc(1.0), matte());
    assert_eq!(b.bounding_box(), Aabb::new(v(-1.0, -1.0, -1.0), v(1.0, 3.0, 1.0)));
    let q = AxisRect::xz((sc(0.0), sc(1.0)), (sc(2.0), sc(4.0)), sc(5.0), matte());
    assert_eq!(q.bounding_box(), Aabb::new(v(0.0, 4.9999, 1.0), v(2.0, 5.0001, 4.0)));
    let c = Hittable::Cube(Cube::new(v(-1.0, -2.0, -3.0), v(1.0, 2.0, 3.0), matte()));
    assert_eq!(c.bounding_box(), Aabb::new(v(-1.0, -2.0, -3.0), v(1.0, 2.0, 3.0)));
    let m = Hittable::ConstantMedium(fog(1.0));
    assert_eq!(m.bounding_box(), Aabb::new(v(-1.0, -1.0, -1.0), v(1.0, 1.0, 1.0)));
    let u = Aabb::new(v(0.0, 0.0, 0.0), v(1.0, 1.0, 1.0)).union(Aabb::new(v(-1.0, 0.5, 0.5), v(0.5, 2.0, 0.7)));
    assert_eq!(u, Aabb::new(v(-1.0, 0.0, 0.0), v(1.0, 2.0, 1.0)));
}

#[test]
fn bounding_box_of_a_turned_box() {
    let cube = Hittable::Cube(Cube::new(v(-1.0, -2.0, -1.0), v(1.0, 2.0, 1.0), matte()));
    let turned = Hittable::RotateY(RotateY::new(cube, Scalar::from_int(45)));
    let b = turned.bounding_box();
    let w = f64::sqrt(2.0);
    assert!((val(b.min.0) + w).abs() < 1e-4);
    assert!((val(b.max.0) - w).abs() < 1e-4);
    assert!((val(b.min.2) + w).abs() < 1e-4);
    assert!((val(b.max.2) - w).abs() < 1e-4);
    assert_eq!(b.min.1, sc(-2.0));
    assert_eq!(b.max.1, sc(2.0));
}
