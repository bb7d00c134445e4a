use lucis::color::Color;
use lucis::fx::FX_ONE;
use lucis::light::Light;
use lucis::vec3::Vec3;

fn fx(v: f64) -> i64 {
    (v * 65536.0).round() as i64
}

fn white() -> Color {
    Color::new(FX_ONE, FX_ONE, FX_ONE)
}

#[test]
fn hard_light_has_one_sample_at_its_position() {
    let l = Light::new(white(), Vec3::new(fx(1.0), fx(2.0), fx(3.0)), [FX_ONE, 0, 0], 0, 1);
    assert_eq!(l.light_samples.len(), 1);
    assert_eq!(l.light_samples[0], Vec3::new(fx(1.0), fx(2.0), fx(3.0)));
}

#[test]
fn soft_light_lays_out_a_square_grid() {
    let pos = Vec3::new(fx(10.0), fx(20.0), fx(30.0));
    let l = Light::new(white(), pos, [FX_ONE, 0, 0], fx(1.0), 4);
    // Four samples on a 2 by 2 grid spanning the diameter in x and y.
    assert_eq!(l.light_samples.len(), 4);
    let expect = [
        (fx(9.0), fx(19.0)),
        (fx(9.0), fx(21.0)),
        (fx(11.0), fx(19.0)),
        (fx(11.0), fx(21.0)),
    ];
    for (k, (ex, ey)) in expect.iter().enumerate() {
        let s = l.light_samples[k];
        assert_eq!(s.x, *ex, "sample {k} x");
        assert_eq!(s.y, *ey, "sample {k} y");
        assert_eq!(s.z, fx(30.0), "sample {k} z stays in the light plane");
    }
}

#[test]
fn nine_samples_make_a_three_by_three_grid() {
    let pos = Vec3::zero();
    let l = Light::new(white(), pos, [FX_ONE, 0, 0], fx(1.0), 9);
    assert_eq!(l.light_samples.len(), 9);
    // The corner and the center of the grid.
    assert_eq!(l.light_samples[0], Vec3::new(-fx(1.0), -fx(1.0), 0));
    assert_eq!(l.light_samples[4], Vec3::new(0, 0, 0));
    assert_eq!(l.light_samples[8], Vec3::new(fx(1.0), fx(1.0), 0));
}

#[test]
fn set_soft_regenerates_the_samples() {
    let mut l = Light::new(white(), Vec3::zero(), [FX_ONE, 0, 0], 0, 1);
    assert_eq!(l.light_samples.len(), 1);
    l.set_soft(fx(1.0), 4);
    assert_eq!(l.light_samples.len(), 4);
    assert_eq!(l.radius, fx(1.0));
    assert_eq!(l.num_samples, 4);
}

#[test]
fn default_light_is_hard_and_white() {
    let l = Light::default();
    assert_eq!(l.color, white());
    assert_eq!(l.position, Vec3::zero());
    assert_eq!(l.falloff, [FX_ONE, 0, 0]);
    assert_eq!(l.radius, 0);
    assert_eq!(l.num_samples, 1);
    assert_eq!(l.light_samples.len(), 1);
}

#[test]
fn random_point_stays_within_a_unit_box() {
    let l = Light::new(white(), Vec3::new(fx(5.0), fx(5.0), fx(5.0)), [FX_ONE, 0, 0], 0, 1);
    for _ in 0..50 {
        let p = l.get_random_point();
        assert!((p.x - fx(5.0)).abs() <= FX_ONE);
        assert!((p.y - fx(5.0)).abs() <= FX_ONE);
        assert!((p.z - fx(5.0)).abs() <= FX_ONE);
    }
}
