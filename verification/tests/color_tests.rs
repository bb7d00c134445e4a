use lucis::color::Color;
use lucis::fx::FX_ONE;

fn fx(v: f64) -> i64 {
    (v * 65536.0).round() as i64
}

fn in_range(c: &Color) -> bool {
    0 <= c.r && c.r <= FX_ONE && 0 <= c.g && c.g <= FX_ONE && 0 <= c.b && c.b <= FX_ONE
}

#[test]
fn constructor_clamps_any_magnitude() {
    let c = Color::new(fx(2.5), -fx(7.0), fx(0.5));
    assert!(in_range(&c));
    assert_eq!(c.r, FX_ONE);
    assert_eq!(c.g, 0);
    assert_eq!(c.b, fx(0.5));
}

#[test]
fn add_clamps_at_one() {
    let a = Color::new(fx(0.8), fx(0.2), fx(1.0));
    let b = Color::new(fx(0.8), fx(0.1), fx(1.0));
    let c = a.add(&b);
    assert!(in_range(&c));
    assert_eq!(c.r, FX_ONE);
    assert_eq!(c.g, fx(0.3));
    assert_eq!(c.b, FX_ONE);
}

#[test]
fn mul_stays_in_range() {
    let a = Color::new(fx(0.5), fx(1.0), fx(0.0));
    let b = Color::new(fx(0.5), fx(1.0), fx(1.0));
    let c = a.mul(&b);
    assert!(in_range(&c));
    assert_eq!(c.r, fx(0.25));
    assert_eq!(c.g, FX_ONE);
    assert_eq!(c.b, 0);
}

#[test]
fn scale_clamps_huge_and_negative_factors() {
    let a = Color::new(fx(0.5), fx(0.5), fx(0.5));
    let big = a.scale(fx(1000.0));
    assert!(in_range(&big));
    assert_eq!(big.r, FX_ONE);
    let neg = a.scale(-fx(3.0));
    assert!(in_range(&neg));
    assert_eq!(neg.g, 0);
}

#[test]
fn div_stays_in_range() {
    let a = Color::new(fx(1.0), fx(0.5), fx(0.25));
    let c = a.div(fx(2.0));
    assert!(in_range(&c));
    assert_eq!(c.r, fx(0.5));
    assert_eq!(c.g, fx(0.25));
    assert_eq!(c.b, fx(0.125));
}

#[test]
fn as_rgb_rounds_to_nearest_byte() {
    let c = Color::new(FX_ONE, 0, 32768);
    assert_eq!(c.as_rgb(), [255, 0, 128]);
}

#[test]
fn rgb_round_trip_of_extremes() {
    let c = Color::from_rgb([255, 0, 128]);
    assert_eq!(c.as_rgb(), [255, 0, 128]);
}
