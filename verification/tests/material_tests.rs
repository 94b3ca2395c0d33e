use ray_tracer::object::{
    CheckerTexture, Dielectric, DiffuseLight, Face, FilteredRay, HitRecord, Isotropic,
    LambertianDiffuse, Material, MaterialObject, Metal, ScatterSample, SolidColor, Texture,
    TextureObject,
};
use ray_tracer::object::material::pow5;
use ray_tracer::object::texture::product_negative;
use ray_tracer::utils::ray::Ray;
use ray_tracer::utils::scalar::Scalar;
use ray_tracer::utils::vec3::Vec3;

fn sc(x: f64) -> Scalar {
    Scalar::new((x * 1e6).round() as i64)
}

fn v(x: f64, y: f64, z: f64) -> Vec3 {
    Vec3::new(sc(x), sc(y), sc(z))
}

fn solid(r: f64, g: f64, b: f64) -> TextureObject {
    TextureObject::Solid(SolidColor::new(sc(r), sc(g), sc(b)))
}

fn hit_at(p: Vec3, normal: Vec3, f: Face) -> HitRecord {
    HitRecord {
        p,
        normal,
        t: sc(1.0),
        u: sc(0.25),
        v: sc(0.75),
        f,
        mat: MaterialObject::matte(Vec3::one()),
    }
}

fn sample(unit: Vec3, chance: f64) -> ScatterSample {
    ScatterSample { unit, chance: sc(chance) }
}

fn same(a: Option<FilteredRay>, b: Option<FilteredRay>) -> bool {
    a == b
}

#[test]
fn solid_color_is_the_same_everywhere() {
    let s = SolidColor::new(sc(0.65), sc(0.05), sc(0.05));
    assert_eq!(s.color, v(0.65, 0.05, 0.05));
    assert_eq!(s.get_color(sc(0.1), sc(0.9), v(3.0, -2.0, 7.0)), v(0.65, 0.05, 0.05));
    assert_eq!(s.get_color(sc(0.0), sc(0.0), Vec3::zero()), v(0.65, 0.05, 0.05));
}

#[test]
fn solid_color_from_samples_multiplies() {
    let s = SolidColor::from_samples(v(0.5, 0.2, 1.0), v(0.5, 0.5, 0.25));
    assert_eq!(s.color, v(0.25, 0.1, 0.25));
}

#[test]
fn random_solid_color_is_a_color() {
    let mut differs = false;
    let first = SolidColor::random().color;
    for _ in 0..100 {
        let c = SolidColor::random().color;
        for x in [c.0, c.1, c.2] {
            assert!(0 <= x.raw && x.raw < 1_000_000);
        }
        if c != first {
            differs = true;
        }
    }
    assert!(differs);
}

#[test]
fn product_sign_follows_the_factors() {
    assert!(product_negative(sc(-1.0), sc(1.0), sc(1.0)));
    assert!(product_negative(sc(-1.0), sc(-1.0), sc(-1.0)));
    assert!(!product_negative(sc(-1.0), sc(-1.0), sc(1.0)));
    assert!(!product_negative(sc(1.0), sc(1.0), sc(1.0)));
    assert!(!product_negative(sc(-1.0), sc(0.0), sc(1.0)));
    assert!(product_negative(Scalar::new(-1), Scalar::new(1), Scalar::new(1)));
}

#[test]
fn checker_alternates_between_cells() {
    let c = CheckerTexture {
        odd_color: SolidColor::new(sc(1.0), sc(1.0), sc(1.0)),
        even_color: SolidColor::new(sc(0.2), sc(0.3), sc(0.1)),
    };
    let odd = v(1.0, 1.0, 1.0);
    let even = v(0.2, 0.3, 0.1);
    // cells have side pi / 10; 0.1 lies in the first cell, 0.4 in the second
    assert_eq!(c.get_color(sc(0.0), sc(0.0), v(0.1, 0.1, 0.1)), even);
    assert_eq!(c.get_color(sc(0.0), sc(0.0), v(0.4, 0.1, 0.1)), odd);
    assert_eq!(c.get_color(sc(0.0), sc(0.0), v(0.4, 0.4, 0.1)), even);
    assert_eq!(c.get_color(sc(0.0), sc(0.0), v(0.4, 0.4, 0.4)), odd);
    assert_eq!(c.get_color(sc(0.0), sc(0.0), v(-0.1, 0.1, 0.1)), odd);
    // on a cell wall the product is zero, which is not below zero
    assert_eq!(c.get_color(sc(0.0), sc(0.0), v(0.0, 0.1, 0.1)), even);
    let t = TextureObject::Checker(c);
    assert_eq!(t.get_color(sc(0.0), sc(0.0), v(0.4, 0.1, 0.1)), odd);
}

#[test]
fn lambertian_scatters_around_the_normal() {
    let m = LambertianDiffuse { texture: solid(0.3, 0.5, 0.7) };
    let r = Ray::new(v(0.0, 0.0, 0.0), v(0.0, 0.0, -1.0), sc(0.4));
    let h = hit_at(v(0.0, 0.0, -1.0), v(0.0, 0.0, 1.0), Face::Inward);
    let got = m.scatter_with(&r, &h, &sample(v(0.6, 0.0, 0.8), 0.0));
    let want = FilteredRay {
        attenuation: v(0.3, 0.5, 0.7),
        scattered: Ray::new(v(0.0, 0.0, -1.0), v(0.6, 0.0, 1.8), sc(0.4)),
    };
    assert!(same(got, Some(want)));
    assert_eq!(m.emit(sc(0.0), sc(0.0), Vec3::zero()), Vec3::zero());
    assert_eq!(m.get_type(), "LambertianDiffuse");
}

#[test]
fn lambertian_attenuation_is_the_solid_color_wherever_it_is_hit() {
    let m = LambertianDiffuse { texture: solid(0.12, 0.45, 0.15) };
    let r = Ray::new(v(1.0, 2.0, 3.0), v(0.3, -0.2, 0.9), sc(0.0));
    for k in 0..50 {
        let p = v(k as f64 * 0.37 - 5.0, k as f64 * -0.11, k as f64 * 1.3);
        let h = hit_at(p, v(0.0, 1.0, 0.0), Face::Inward);
        let f = m.scatter(&r, &h).unwrap();
        assert_eq!(f.attenuation, v(0.12, 0.45, 0.15));
        assert_eq!(f.scattered.orig, p);
    }
}

#[test]
fn metal_fuzziness_is_clamped() {
    assert_eq!(Metal::new(sc(1.7), Vec3::one()).fuzziness, sc(1.0));
    assert_eq!(Metal::new(sc(0.3), Vec3::one()).fuzziness, sc(0.3));
    assert_eq!(Metal::new(sc(1.0), Vec3::one()).fuzziness, sc(1.0));
    assert_eq!(Metal::new(sc(-0.2), Vec3::one()).fuzziness, sc(0.0));
    assert_eq!(Metal::new(sc(0.3), v(0.7, 0.6, 0.5)).albedo, v(0.7, 0.6, 0.5));
}

#[test]
fn polished_metal_mirrors() {
    let m = Metal::new(sc(0.0), v(0.7, 0.7, 0.7));
    let r = Ray::new(v(-1.0, 1.0, 0.0), v(1.0, -1.0, 0.0), sc(0.2));
    let h = hit_at(v(0.0, 0.0, 0.0), v(0.0, 1.0, 0.0), Face::Inward);
    let got = m.scatter_with(&r, &h, &sample(v(0.0, 0.0, 1.0), 0.0));
    let want = FilteredRay {
        attenuation: v(0.7, 0.7, 0.7),
        scattered: Ray::new(v(0.0, 0.0, 0.0), v(1.0, 1.0, 0.0), sc(0.2)),
    };
    assert!(same(got, Some(want)));
    assert_eq!(m.get_type(), "Metal");
}

#[test]
fn fuzzy_metal_strays_from_the_mirror_direction() {
    let m = Metal::new(sc(0.5), v(0.7, 0.7, 0.7));
    let r = Ray::new(v(-1.0, 1.0, 0.0), v(1.0, -1.0, 0.0), sc(0.0));
    let h = hit_at(v(0.0, 0.0, 0.0), v(0.0, 1.0, 0.0), Face::Inward);
    let got = m.scatter_with(&r, &h, &sample(v(0.0, 0.0, 1.0), 0.0)).unwrap();
    assert_eq!(got.scattered.dir, v(1.0, 1.0, 0.5));
}

#[test]
fn metal_absorbs_what_would_go_into_the_surface() {
    let m = Metal::new(sc(1.0), v(0.7, 0.7, 0.7));
    // grazing ray, pushed below the surface by the fuzz
    let r = Ray::new(v(-1.0, 0.1, 0.0), v(1.0, -0.1, 0.0), sc(0.0));
    let h = hit_at(v(0.0, 0.0, 0.0), v(0.0, 1.0, 0.0), Face::Inward);
    assert!(m.scatter_with(&r, &h, &sample(v(0.0, -1.0, 0.0), 0.0)).is_none());
    // exactly along the surface: the dot product is zero, which is absorbed
    let flat = Metal::new(sc(0.0), v(0.7, 0.7, 0.7));
    let along = Ray::new(v(-1.0, 0.0, 0.0), v(1.0, 0.0, 0.0), sc(0.0));
    assert!(flat.scatter_with(&along, &h, &sample(v(0.0, 0.0, 1.0), 0.0)).is_none());
}

#[test]
fn dielectric_derives_its_fields() {
    let d = Dielectric::new(sc(1.5), Vec3::one());
    assert_eq!(d.eta, sc(1.5));
    assert_eq!(d.eta_inv.raw, 666_666);
    // ((1 - 1.5) / (1 + 1.5))^2 = 0.04
    assert_eq!(d.r0, sc(0.04));
    assert_eq!(d.albedo, Vec3::one());
    let one = Dielectric::new(sc(1.0), Vec3::one());
    assert_eq!(one.eta_inv, sc(1.0));
    assert_eq!(one.r0, sc(0.0));
}

#[test]
fn fifth_power() {
    assert_eq!(pow5(sc(2.0)), sc(32.0));
    assert_eq!(pow5(sc(0.5)), sc(0.03125));
    assert_eq!(pow5(sc(-1.0)), sc(-1.0));
}

#[test]
fn schlick_at_normal_and_grazing_incidence() {
    let d = Dielectric::new(sc(1.5), Vec3::one());
    assert_eq!(d.schlick(sc(1.0)), sc(0.04));
    assert_eq!(d.schlick(sc(0.0)), sc(1.0));
    // 0.04 + 0.96 * 0.5^5 = 0.07
    assert_eq!(d.schlick(sc(0.5)), sc(0.07));
}

#[test]
fn dielectric_refracts_straight_through_at_normal_incidence() {
    let d = Dielectric::new(sc(1.5), v(1.0, 1.0, 1.0));
    let r = Ray::new(v(0.0, 0.0, 1.0), v(0.0, 0.0, -2.0), sc(0.3));
    let h = hit_at(v(0.0, 0.0, 0.0), v(0.0, 0.0, 1.0), Face::Inward);
    // chance 0.5 is above the reflectance 0.04
    let got = d.scatter_with(&r, &h, &sample(v(1.0, 0.0, 0.0), 0.5));
    let want = FilteredRay {
        attenuation: v(1.0, 1.0, 1.0),
        scattered: Ray::new(v(0.0, 0.0, 0.0), v(0.0, 0.0, -1.0), sc(0.3)),
    };
    assert!(same(got, Some(want)));
    assert_eq!(d.get_type(), "Dielectric");
}

#[test]
fn dielectric_reflects_when_chance_is_below_the_reflectance() {
    let d = Dielectric::new(sc(1.5), v(1.0, 1.0, 1.0));
    let r = Ray::new(v(0.0, 0.0, 1.0), v(0.0, 0.0, -2.0), sc(0.0));
    let h = hit_at(v(0.0, 0.0, 0.0), v(0.0, 0.0, 1.0), Face::Inward);
    let got = d.scatter_with(&r, &h, &sample(v(1.0, 0.0, 0.0), 0.01)).unwrap();
    assert_eq!(got.scattered.dir, v(0.0, 0.0, 1.0));
    // exactly at the reflectance the ray is refracted
    let edge = d.scatter_with(&r, &h, &sample(v(1.0, 0.0, 0.0), 0.04)).unwrap();
    assert_eq!(edge.scattered.dir, v(0.0, 0.0, -1.0));
}

#[test]
fn dielectric_reflects_totally_from_inside_at_a_flat_angle() {
    let d = Dielectric::new(sc(1.5), v(1.0, 1.0, 1.0));
    // leaving the glass at 53 degrees from the normal: sin = 0.8, 0.8 * 1.5 > 1
    let r = Ray::new(v(0.0, 0.0, 0.0), v(0.8, 0.6, 0.0), sc(0.0));
    let h = hit_at(v(0.8, 0.6, 0.0), v(0.0, -1.0, 0.0), Face::Outward);
    let got = d.scatter_with(&r, &h, &sample(v(1.0, 0.0, 0.0), 0.999_999)).unwrap();
    assert_eq!(got.scattered.dir, v(0.8, -0.6, 0.0));
    // entering at the same angle it is refracted: sin = 0.8 / 1.5
    let hin = hit_at(v(0.8, 0.6, 0.0), v(0.0, -1.0, 0.0), Face::Inward);
    let bent = d.scatter_with(&r, &hin, &sample(v(1.0, 0.0, 0.0), 0.999_999)).unwrap();
    let dir = bent.scattered.dir;
    assert!((dir.0.raw - 533_333).abs() <= 3, "{}", dir.0.raw);
    assert!((dir.1.raw - 845_905).abs() <= 3, "{}", dir.1.raw);
    assert_eq!(dir.2.raw, 0);
}

#[test]
fn dielectric_always_scatters() {
    let d = Dielectric::new(sc(1.33), v(1.0, 1.0, 1.0));
    let h = hit_at(v(0.0, 0.0, 0.0), v(0.0, 1.0, 0.0), Face::Inward);
    for k in 0..100 {
        let r = Ray::new(v(0.0, 1.0, 0.0), v(k as f64 * 0.05 - 2.5, -1.0, 0.3), sc(0.0));
        assert!(d.scatter(&r, &h).is_some());
    }
}

#[test]
fn matched_index_does_not_bend_the_ray() {
    let d = Dielectric::new(sc(1.0), v(1.0, 1.0, 1.0));
    let n = v(0.0, 1.0, 0.0);
    for (x, y) in [(0.0, -1.0), (0.6, -0.8), (-0.8, -0.6), (0.28, -0.96)] {
        let r = Ray::new(v(0.0, 1.0, 0.0), v(x, y, 0.0), sc(0.0));
        for f in [Face::Inward, Face::Outward] {
            let h = hit_at(v(0.0, 0.0, 0.0), n, f);
            let got = d.scatter_with(&r, &h, &sample(v(1.0, 0.0, 0.0), 0.999_999)).unwrap();
            assert_eq!(got.scattered.dir, v(x, y, 0.0));
        }
    }
}

#[test]
fn matched_index_round_trip_restores_the_direction() {
    let d = Dielectric::new(sc(1.0), v(1.0, 1.0, 1.0));
    let r = Ray::new(v(0.0, 1.0, 0.0), v(0.6, -0.8, 0.0), sc(0.0));
    let enter = hit_at(v(0.0, 0.0, 0.0), v(0.0, 1.0, 0.0), Face::Inward);
    let inside = d.scatter_with(&r, &enter, &sample(v(1.0, 0.0, 0.0), 0.999_999)).unwrap();
    let leave = hit_at(v(0.6, -0.8, 0.0), v(0.0, 1.0, 0.0), Face::Outward);
    let out = d.scatter_with(&inside.scattered, &leave, &sample(v(1.0, 0.0, 0.0), 0.999_999));
    assert_eq!(out.unwrap().scattered.dir, v(0.6, -0.8, 0.0));
}

#[test]
fn light_emits_and_never_scatters() {
    let l = DiffuseLight { emit: solid(1.0, 0.5, 0.25), brightness: sc(15.0) };
    assert_eq!(l.emit(sc(0.0), sc(0.0), Vec3::zero()), v(15.0, 7.5, 3.75));
    let r = Ray::new(v(0.0, 0.0, 0.0), v(0.0, 1.0, 0.0), sc(0.0));
    let h = hit_at(v(0.0, 1.0, 0.0), v(0.0, -1.0, 0.0), Face::Inward);
    assert!(l.scatter(&r, &h).is_none());
    assert!(l.scatter_with(&r, &h, &sample(v(1.0, 0.0, 0.0), 0.5)).is_none());
    assert_eq!(l.get_type(), "DiffuseLight");
}

#[test]
fn isotropic_scatters_anywhere() {
    let m = Isotropic { albedo: solid(0.9, 0.9, 0.9) };
    let r = Ray::new(v(0.0, 0.0, 0.0), v(0.0, 1.0, 0.0), sc(0.7));
    let h = hit_at(v(0.0, 1.0, 0.0), v(1.0, 0.0, 0.0), Face::Inward);
    let got = m.scatter_with(&r, &h, &sample(v(0.0, -0.6, 0.8), 0.5));
    let want = FilteredRay {
        attenuation: v(0.9, 0.9, 0.9),
        scattered: Ray::new(v(0.0, 1.0, 0.0), v(0.0, -0.6, 0.8), sc(0.7)),
    };
    assert!(same(got, Some(want)));
    assert!(m.scatter(&r, &h).is_some());
    assert_eq!(m.get_type(), "Isotropic");
}

#[test]
fn material_object_dispatches() {
    let r = Ray::new(v(0.0, 0.0, 0.0), v(0.0, 1.0, 0.0), sc(0.0));
    let h = hit_at(v(0.0, 1.0, 0.0), v(0.0, -1.0, 0.0), Face::Inward);
    let s = sample(v(0.0, -0.6, 0.8), 0.5);
    let lamp = MaterialObject::lamp(v(1.0, 1.0, 1.0), sc(2.0));
    assert_eq!(lamp.get_type(), "DiffuseLight");
    assert_eq!(lamp.emit(sc(0.0), sc(0.0), Vec3::zero()), v(2.0, 2.0, 2.0));
    assert!(lamp.scatter_with(&r, &h, &s).is_none());
    let matte = MaterialObject::matte(v(0.1, 0.2, 0.3));
    assert_eq!(matte.get_type(), "LambertianDiffuse");
    assert_eq!(matte.scatter_with(&r, &h, &s).unwrap().attenuation, v(0.1, 0.2, 0.3));
    assert_eq!(matte.emit(sc(0.0), sc(0.0), Vec3::zero()), Vec3::zero());
    let fog = MaterialObject::Isotropic(Isotropic { albedo: solid(0.9, 0.9, 0.9) });
    assert_eq!(fog.scatter(&r, &h).unwrap().attenuation, v(0.9, 0.9, 0.9));
}

#[test]
fn drawn_samples_are_admissible() {
    for _ in 0..100 {
        let s = ScatterSample::draw();
        assert!(0 <= s.chance.raw && s.chance.raw < 1_000_000);
        let len2 = s.unit.length_square().raw - 1_000_000;
        assert!(len2.abs() < 100);
    }
}

#[test]
fn reflectance_at_normal_incidence_lies_below_one() {
    for raw in [1i64, 2, 999, 500_000, 999_999, 1_000_000, 1_000_001, 1_330_000, 2_400_000,
        1_000_000_000, i64::MAX - 1_000_000, i64::MAX]
    {
        let d = Dielectric::new(Scalar::new(raw), Vec3::one());
        assert!(0 <= d.r0.raw && d.r0.raw < 1_000_000, "{}: {}", raw, d.r0.raw);
    }
    // (1 - 1.33) / (1 + 1.33) = -0.141630, whose square is 0.020059
    assert_eq!(Dielectric::new(sc(1.33), Vec3::one()).r0.raw, 20_059);
}

#[test]
fn isotropic_directions_have_unit_length() {
    let m = Isotropic { albedo: solid(0.9, 0.9, 0.9) };
    let r = Ray::new(v(0.0, 0.0, 0.0), v(0.0, 1.0, 0.0), sc(0.7));
    let h = hit_at(v(0.0, 1.0, 0.0), v(1.0, 0.0, 0.0), Face::Inward);
    for _ in 0..200 {
        let f = m.scatter(&r, &h).unwrap();
        let len2 = f.scattered.dir.length_square().raw;
        assert!(1_000_000 - 16 <= len2 && len2 <= 1_000_000 + 321, "{}", len2);
    }
}
