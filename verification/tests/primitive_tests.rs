use lucis::fx::{fx_sqrt, FX_ONE};
use lucis::primitive::{
    aabb_collision, cone_collides, cube_collides, cylinder_collides, find_roots_quadratic,
    sphere_collides, Roots,
};
use lucis::ray::Ray;
use lucis::vec3::Vec3;

fn fx(v: f64) -> i64 {
    (v * 65536.0).round() as i64
}

fn norm_of(p: &Vec3) -> i64 {
    p.norm()
}

#[test]
fn quadratic_two_roots_sorted() {
    // t^2 - 3t + 2 == 0 has roots 1 and 2.
    match find_roots_quadratic(FX_ONE, -fx(3.0), fx(2.0)) {
        Roots::Two(r1, r2) => {
            assert!((r1 - FX_ONE).abs() <= 8, "first root {r1}");
            assert!((r2 - fx(2.0)).abs() <= 8, "second root {r2}");
        },
        other => panic!("expected two roots, got {other:?}"),
    }
}

#[test]
fn quadratic_negative_discriminant() {
    // t^2 + 1 == 0 has no real roots.
    assert!(matches!(find_roots_quadratic(FX_ONE, 0, FX_ONE), Roots::No));
}

#[test]
fn quadratic_degenerate_linear() {
    // 2t - 4 == 0.
    match find_roots_quadratic(0, fx(2.0), -fx(4.0)) {
        Roots::One(r) => assert_eq!(r, fx(2.0)),
        other => panic!("expected one root, got {other:?}"),
    }
    assert!(matches!(find_roots_quadratic(0, 0, fx(1.0)), Roots::No));
}

// Rays whose origin lies outside the unit sphere and whose direction
// points at the origin hit the sphere at a point of norm close to one.
#[test]
fn sphere_hits_lie_on_the_unit_sphere() {
    let sources = [
        (2.0, 0.0, 0.0),
        (0.0, 0.0, 2.0),
        (3.0, 4.0, 0.0),
        (1.5, 1.5, 1.5),
        (-2.0, 1.0, 5.0),
        (0.0, -7.0, 0.5),
    ];
    for (sx, sy, sz) in sources {
        let src = Vec3::new(fx(sx), fx(sy), fx(sz));
        let dir = Vec3::zero().sub(&src);
        let ray = Ray::new(src, dir);
        let hit = sphere_collides(&ray).expect("ray at the origin must hit the sphere");
        let p = ray.src.add(&ray.dir.scale(hit.t_value));
        let n = norm_of(&p);
        assert!(
            (n - FX_ONE).abs() <= fx(0.01),
            "hit point norm {n} for source ({sx}, {sy}, {sz})"
        );
    }
}

#[test]
fn sphere_misses_when_pointing_away() {
    let src = Vec3::new(fx(2.0), 0, 0);
    let ray = Ray::new(src, Vec3::new(fx(1.0), 0, 0));
    assert!(sphere_collides(&ray).is_none());
}

#[test]
fn sphere_normal_is_the_hit_point() {
    let ray = Ray::new(Vec3::new(0, 0, fx(2.0)), Vec3::new(0, 0, -fx(1.0)));
    let hit = sphere_collides(&ray).unwrap();
    assert!((hit.t_value - fx(1.0)).abs() <= fx(0.01));
    assert!((hit.normal.z - FX_ONE).abs() <= fx(0.01));
    assert!(hit.normal.x.abs() <= 8 && hit.normal.y.abs() <= 8);
}

// A ray fully outside a box and diverging from it must miss.
#[test]
fn slab_test_rejects_diverging_rays() {
    let pos = Vec3::zero();
    let size = Vec3::new(FX_ONE, FX_ONE, FX_ONE);
    let away = Ray::new(Vec3::new(fx(2.0), fx(0.5), fx(0.5)), Vec3::new(fx(1.0), 0, 0));
    assert!(matches!(aabb_collision(&away, &pos, &size), Roots::No));
    let parallel_outside = Ray::new(Vec3::new(fx(2.0), fx(0.5), fx(0.5)), Vec3::new(0, 0, fx(1.0)));
    assert!(matches!(aabb_collision(&parallel_outside, &pos, &size), Roots::No));
    let below = Ray::new(Vec3::new(fx(0.5), -fx(3.0), fx(0.5)), Vec3::new(0, -fx(1.0), 0));
    assert!(matches!(aabb_collision(&below, &pos, &size), Roots::No));
}

// A ray passing through a box gets entry and exit parameters that bound
// the segment inside the box.
#[test]
fn slab_test_brackets_the_inside_segment() {
    let pos = Vec3::zero();
    let size = Vec3::new(FX_ONE, FX_ONE, FX_ONE);
    let ray = Ray::new(Vec3::new(fx(0.5), fx(0.5), fx(2.0)), Vec3::new(0, 0, -fx(1.0)));
    match aabb_collision(&ray, &pos, &size) {
        Roots::Two(t1, t2) => {
            assert!((t1 - fx(1.0)).abs() <= 8, "entry {t1}");
            assert!((t2 - fx(2.0)).abs() <= 8, "exit {t2}");
            let mid = ray.at((t1 + t2) / 2);
            assert!(0 < mid.x && mid.x < FX_ONE);
            assert!(0 < mid.y && mid.y < FX_ONE);
            assert!(0 < mid.z && mid.z < FX_ONE);
        },
        other => panic!("expected entry and exit, got {other:?}"),
    }
}

#[test]
fn slab_test_from_inside_gives_exit_only() {
    let pos = Vec3::zero();
    let size = Vec3::new(FX_ONE, FX_ONE, FX_ONE);
    let ray = Ray::new(Vec3::new(fx(0.5), fx(0.5), fx(0.5)), Vec3::new(0, 0, -fx(1.0)));
    match aabb_collision(&ray, &pos, &size) {
        Roots::One(t) => assert!((t - fx(0.5)).abs() <= 8, "exit {t}"),
        other => panic!("expected a single exit, got {other:?}"),
    }
}

#[test]
fn cube_face_normal_points_at_the_ray() {
    let ray = Ray::new(Vec3::new(fx(0.5), fx(0.5), fx(3.0)), Vec3::new(0, 0, -fx(1.0)));
    let hit = cube_collides(&ray).expect("ray must hit the cube");
    assert_eq!(hit.normal.x, 0);
    assert_eq!(hit.normal.y, 0);
    assert_eq!(hit.normal.z, FX_ONE);
}

#[test]
fn cylinder_side_wall_hit() {
    let ray = Ray::new(Vec3::new(fx(3.0), 0, 0), Vec3::new(-fx(1.0), 0, 0));
    let hit = cylinder_collides(&ray).expect("ray must hit the cylinder");
    assert!((hit.t_value - fx(2.0)).abs() <= fx(0.01));
    assert!((hit.normal.x - FX_ONE).abs() <= fx(0.01));
    assert_eq!(hit.normal.z, 0);
}

#[test]
fn cylinder_misses_past_the_caps() {
    // Parallel to the axis plane but above the clipped height on both
    // roots.
    let ray = Ray::new(Vec3::new(fx(3.0), 0, fx(5.0)), Vec3::new(-fx(1.0), 0, 0));
    assert!(cylinder_collides(&ray).is_none());
}

#[test]
fn cone_hit_within_height_clip() {
    // Aim at the cone's surface point (0.35, 0.5, 0) slightly above the
    // apex, from outside along x.
    let ray = Ray::new(Vec3::new(fx(3.0), fx(0.5), 0), Vec3::new(-fx(1.0), 0, 0));
    let hit = cone_collides(&ray).expect("ray must hit the cone");
    let p = ray.at(hit.t_value);
    // On the surface, x^2 + z^2 == y^2.
    let lhs = fx_sqrt(((p.x as i128 * p.x as i128 + p.z as i128 * p.z as i128) / 65536) as i64);
    assert!((lhs - p.y).abs() <= fx(0.02), "surface residual {} vs {}", lhs, p.y);
    assert!(0 <= p.y && p.y <= FX_ONE);
}

#[test]
fn cone_misses_above_the_clip() {
    let ray = Ray::new(Vec3::new(fx(3.0), fx(2.0), 0), Vec3::new(-fx(1.0), 0, 0));
    assert!(cone_collides(&ray).is_none());
}
