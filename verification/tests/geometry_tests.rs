use lucis::affine::Affine;
use lucis::fx::FX_ONE;
use lucis::ray::Ray;
use lucis::vec3::Vec3;

fn fx(v: f64) -> i64 {
    (v * 65536.0).round() as i64
}

#[test]
fn vector_algebra_is_exact_on_simple_values() {
    let a = Vec3::new(fx(1.0), fx(2.0), fx(3.0));
    let b = Vec3::new(fx(4.0), -fx(5.0), fx(6.0));
    let s = a.add(&b);
    assert_eq!((s.x, s.y, s.z), (fx(5.0), -fx(3.0), fx(9.0)));
    let d = a.dot(&b);
    assert_eq!(d, fx(4.0 - 10.0 + 18.0));
    let c = Vec3::new(fx(1.0), 0, 0).cross(&Vec3::new(0, fx(1.0), 0));
    assert_eq!((c.x, c.y, c.z), (0, 0, FX_ONE));
}

#[test]
fn normalize_gives_a_unit_vector() {
    let v = Vec3::new(fx(3.0), fx(4.0), 0).normalize();
    assert!((v.norm() - FX_ONE).abs() <= 4, "norm was {}", v.norm());
    assert!((v.x - fx(0.6)).abs() <= 4);
    assert!((v.y - fx(0.8)).abs() <= 4);
}

#[test]
fn normalize_leaves_an_unmeasurably_short_vector_alone() {
    let v = Vec3::new(1, 1, 0);
    let n = v.normalize();
    assert_eq!((n.x, n.y, n.z), (1, 1, 0));
}

#[test]
fn ray_construction_normalizes_the_direction() {
    let r = Ray::new(Vec3::zero(), Vec3::new(fx(10.0), 0, 0));
    assert_eq!(r.dir.x, FX_ONE);
    let u = r.unit_dir();
    assert_eq!(u.x, FX_ONE);
    let p = r.at(fx(2.5));
    assert_eq!(p.x, fx(2.5));
}

#[test]
fn ray_between_points_aims_at_the_destination() {
    let r = Ray::new_from_points(Vec3::new(fx(1.0), 0, 0), Vec3::new(fx(1.0), fx(5.0), 0));
    assert_eq!(r.dir.y, FX_ONE);
    assert_eq!(r.dir.x, 0);
}

#[test]
fn translation_and_its_inverse_cancel() {
    let t = Affine::translation(fx(3.0), -fx(2.0), fx(1.0));
    let back = Affine::translation(-fx(3.0), fx(2.0), -fx(1.0));
    let round = back.compose(&t);
    let p = Vec3::new(fx(7.0), fx(8.0), fx(9.0));
    let q = round.apply_point(&p);
    assert_eq!((q.x, q.y, q.z), (p.x, p.y, p.z));
}

#[test]
fn scaling_applies_per_axis() {
    let s = Affine::scaling(fx(2.0), fx(3.0), fx(4.0));
    let v = s.apply_vec(&Vec3::new(fx(1.0), fx(1.0), fx(1.0)));
    assert_eq!((v.x, v.y, v.z), (fx(2.0), fx(3.0), fx(4.0)));
    // The linear part ignores translation; points pick it up.
    let t = Affine::translation(fx(5.0), 0, 0);
    let w = t.apply_vec(&Vec3::new(fx(1.0), 0, 0));
    assert_eq!(w.x, fx(1.0));
    let p = t.apply_point(&Vec3::new(fx(1.0), 0, 0));
    assert_eq!(p.x, fx(6.0));
}

#[test]
fn rotation_by_ninety_degrees_swaps_axes() {
    let c = lucis::trig::cos_deg_e(fx(90.0));
    let s = lucis::trig::sin_deg_e(fx(90.0));
    let r = Affine::rotation_z(c, s);
    let v = r.apply_vec(&Vec3::new(FX_ONE, 0, 0));
    assert!(v.x.abs() <= 32, "x was {}", v.x);
    assert!((v.y - FX_ONE).abs() <= 32, "y was {}", v.y);
}

#[test]
fn transpose_apply_matches_the_transposed_matrix() {
    // A shear-like map: transpose application must read the columns.
    let mut m = Affine::identity();
    m.m01 = fx(2.0);
    let v = m.apply_transpose_vec(&Vec3::new(FX_ONE, 0, 0));
    assert_eq!((v.x, v.y, v.z), (FX_ONE, fx(2.0), 0));
}
