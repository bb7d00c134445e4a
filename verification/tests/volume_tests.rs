use lucis::color::Color;
use lucis::node::Intersect;
use lucis::fx::FX_ONE;
use lucis::ray::Ray;
use lucis::vec3::Vec3;
use lucis::volume::{
    BoxParams, ConeParams, Volume, VolumeEffect, VolumetricSolid, FOG_SAT_DIST,
};

fn fx(v: f64) -> i64 {
    (v * 65536.0).round() as i64
}

fn white() -> Color {
    Color::new(FX_ONE, FX_ONE, FX_ONE)
}

fn black() -> Color {
    Color::new(0, 0, 0)
}

fn fog_box(depth: f64) -> VolumetricSolid {
    VolumetricSolid::new(
        Volume::Cuboid(BoxParams {
            pos: Vec3::new(-fx(50.0), -fx(50.0), 0),
            size: Vec3::new(fx(100.0), fx(100.0), fx(depth)),
        }),
        VolumeEffect::Fog(white()),
    )
}

fn brightness_through(depth: f64) -> i64 {
    let v = fog_box(depth);
    let ray = Ray::new(Vec3::new(0, 0, -fx(5.0)), Vec3::new(0, 0, fx(1.0)));
    v.apply(&ray, &None, black()).r
}

// The fog blend factor never falls as the traveled distance grows, and
// it saturates at full fog beyond the saturation distance.
#[test]
fn fog_grows_with_distance_and_saturates() {
    let short = brightness_through(1.0);
    let medium = brightness_through(10.0);
    let long = brightness_through(30.0);
    assert!(short > 0);
    assert!(short < medium, "{short} vs {medium}");
    assert!(medium < long, "{medium} vs {long}");
    let saturated = brightness_through((FOG_SAT_DIST as f64) / 65536.0 + 1.0);
    assert_eq!(saturated, FX_ONE, "beyond the limit the fog is total");
}

#[test]
fn fog_has_no_effect_when_the_surface_is_nearer() {
    let v = fog_box(10.0);
    let ray = Ray::new(Vec3::new(0, 0, -fx(5.0)), Vec3::new(0, 0, fx(1.0)));
    // A pretended surface hit well before the fog volume.
    let mut scene = lucis::node::SceneNode::new(0, String::from("root"));
    let mut s = lucis::node::SceneNode::new(1, String::from("wall"));
    s.primitive = lucis::primitive::Primitive::Sphere;
    s.translate(0, 0, -fx(3.0));
    scene.add_child(s);
    let hit = scene.intersects(&ray).expect("probe must hit the wall sphere");
    let out = v.apply(&ray, &Some(hit), Color::new(fx(0.25), fx(0.25), fx(0.25)));
    assert_eq!(out.r, fx(0.25), "the color must pass through unchanged");
}

#[test]
fn glow_brightens_additively_up_to_its_cap() {
    let v = VolumetricSolid::new(
        Volume::Cuboid(BoxParams {
            pos: Vec3::new(-fx(50.0), -fx(50.0), 0),
            size: Vec3::new(fx(100.0), fx(100.0), fx(2.0)),
        }),
        VolumeEffect::Light(white()),
    );
    let ray = Ray::new(Vec3::new(0, 0, -fx(5.0)), Vec3::new(0, 0, fx(1.0)));
    let out = v.apply(&ray, &None, black());
    // Two units of glow at 0.2 per unit.
    assert!((out.r - fx(0.4)).abs() <= fx(0.02), "glow was {}", out.r);
    let deep = VolumetricSolid::new(
        Volume::Cuboid(BoxParams {
            pos: Vec3::new(-fx(50.0), -fx(50.0), 0),
            size: Vec3::new(fx(100.0), fx(100.0), fx(50.0)),
        }),
        VolumeEffect::Light(white()),
    );
    let capped = deep.apply(&ray, &None, black());
    assert!((capped.r - fx(0.7)).abs() <= fx(0.02), "cap was {}", capped.r);
}

#[test]
fn solid_replaces_the_color_outright() {
    let v = VolumetricSolid::new(
        Volume::Cuboid(BoxParams {
            pos: Vec3::new(-fx(1.0), -fx(1.0), 0),
            size: Vec3::new(fx(2.0), fx(2.0), fx(2.0)),
        }),
        VolumeEffect::Solid(Color::new(FX_ONE, 0, 0)),
    );
    let ray = Ray::new(Vec3::new(0, 0, -fx(5.0)), Vec3::new(0, 0, fx(1.0)));
    let out = v.apply(&ray, &None, white());
    assert_eq!((out.r, out.g, out.b), (FX_ONE, 0, 0));
}

#[test]
fn missing_the_volume_changes_nothing() {
    let v = fog_box(10.0);
    let ray = Ray::new(Vec3::new(0, 0, -fx(5.0)), Vec3::new(0, 0, -fx(1.0)));
    let c = Color::new(fx(0.1), fx(0.2), fx(0.3));
    let out = v.apply(&ray, &None, c);
    assert_eq!((out.r, out.g, out.b), (c.r, c.g, c.b));
}

#[test]
fn pass_effect_changes_nothing() {
    let v = VolumetricSolid::new(
        Volume::Cuboid(BoxParams {
            pos: Vec3::new(-fx(1.0), -fx(1.0), 0),
            size: Vec3::new(fx(2.0), fx(2.0), fx(2.0)),
        }),
        VolumeEffect::Pass,
    );
    let ray = Ray::new(Vec3::new(0, 0, -fx(5.0)), Vec3::new(0, 0, fx(1.0)));
    let c = Color::new(fx(0.1), fx(0.2), fx(0.3));
    let out = v.apply(&ray, &None, c);
    assert_eq!((out.r, out.g, out.b), (c.r, c.g, c.b));
}

#[test]
fn cone_volume_glows_along_its_axis() {
    // An unrotated, unscaled cone at the origin opening along +y,
    // clipped at height three.
    let cone = ConeParams::new(Vec3::zero(), FX_ONE, 0, 0, 0);
    let v = VolumetricSolid::new(Volume::Cone(cone), VolumeEffect::Light(white()));
    // A ray crossing the cone at height one hits x in [-1, 1].
    let ray = Ray::new(Vec3::new(-fx(5.0), fx(1.0), 0), Vec3::new(fx(1.0), 0, 0));
    let out = v.apply(&ray, &None, black());
    assert!(out.r > fx(0.3), "glow through the cone was {}", out.r);
    // A ray far above the clip leaves the color alone.
    let miss = Ray::new(Vec3::new(-fx(5.0), fx(10.0), 0), Vec3::new(fx(1.0), 0, 0));
    let kept = v.apply(&miss, &None, black());
    assert_eq!(kept.r, 0);
}
