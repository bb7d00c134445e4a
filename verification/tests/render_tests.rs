use lucis::color::Color;
use lucis::fx::FX_ONE;
use lucis::light::Light;
use lucis::material::Material;
use lucis::node::SceneNode;
use lucis::primitive::Primitive;
use lucis::raytrace::Raytracer;
use lucis::vec3::Vec3;

fn fx(v: f64) -> i64 {
    (v * 65536.0).round() as i64
}

/// The scene: one unit sphere at the origin, the camera at (0, 0, 2)
/// looking toward (0, 0, -1), one white light at (2, 2, 2) with constant
/// falloff, and a small gray ambient term.
fn demo_scene() -> Raytracer {
    let mut sphere = SceneNode::new(1, String::from("sphere"));
    sphere.primitive = Primitive::Sphere;
    // A red-leaning diffuse so sphere pixels are told apart from the
    // blue-leaning sky gradient.
    sphere.material = Material::phong(
        Color::new(fx(0.9), fx(0.4), fx(0.3)),
        Color::new(fx(0.2), fx(0.2), fx(0.2)),
        8,
    );
    let mut root = SceneNode::new(0, String::from("root"));
    root.add_child(sphere);
    let mut rt = Raytracer::default();
    rt.root_node = root;
    rt.eye = Vec3::new(0, 0, fx(2.0));
    rt.view = Vec3::new(0, 0, -fx(1.0));
    rt.up = Vec3::new(0, fx(1.0), 0);
    rt.fov_y = fx(90.0);
    rt.ambient = Color::new(fx(0.1), fx(0.1), fx(0.1));
    rt.lights = vec![Light::new(
        Color::new(FX_ONE, FX_ONE, FX_ONE),
        Vec3::new(fx(2.0), fx(2.0), fx(2.0)),
        [FX_ONE, 0, 0],
        0,
        1,
    )];
    rt
}

fn pixel(buf: &[u8], w: u32, x: u32, y: u32) -> (u8, u8, u8) {
    let i = ((y * w + x) * 3) as usize;
    (buf[i], buf[i + 1], buf[i + 2])
}

fn looks_like_sphere(p: (u8, u8, u8)) -> bool {
    // The material leans red; the sky gradient leans blue and stars are
    // pure gray.
    p.0 > p.2
}

#[test]
fn sphere_scene_renders_a_centered_silhouette() {
    let rt = demo_scene();
    let w = 64u32;
    let h = 64u32;
    let buf = rt.render(w, h);
    assert_eq!(buf.len(), (3 * w * h) as usize);

    // The center of the image is on the sphere.
    assert!(looks_like_sphere(pixel(&buf, w, 32, 32)), "center must be sphere");
    // Points inside the projected radius in all four diagonal directions.
    for (dx, dy) in [(8i32, 8i32), (-8, 8), (8, -8), (-8, -8)] {
        let p = pixel(&buf, w, (32 + dx) as u32, (32 + dy) as u32);
        assert!(looks_like_sphere(p), "({dx}, {dy}) must be sphere, was {p:?}");
    }
    // The image corners lie outside the silhouette.
    for (x, y) in [(1u32, 1u32), (62, 1), (1, 62), (62, 62)] {
        let p = pixel(&buf, w, x, y);
        assert!(!looks_like_sphere(p), "corner ({x}, {y}) must be sky, was {p:?}");
    }
}

#[test]
fn light_facing_side_is_brighter() {
    let rt = demo_scene();
    let w = 64u32;
    let buf = rt.render(w, 64);
    // The light sits up and to the right of the camera; the upper-right
    // part of the sphere must be brighter than the lower-left.
    let up_right = pixel(&buf, w, 42, 22);
    let down_left = pixel(&buf, w, 22, 42);
    let b1 = up_right.0 as u32 + up_right.1 as u32 + up_right.2 as u32;
    let b2 = down_left.0 as u32 + down_left.1 as u32 + down_left.2 as u32;
    assert!(b1 > b2, "upper right {b1} must outshine lower left {b2}");
}

#[test]
fn background_rows_darken_toward_the_top() {
    // Without any scene the whole image is background; the gradient rate
    // grows with the row index.  Stars are random, so compare rows far
    // enough apart that the gradient dominates, using the blue channel
    // (never dimmed by the gradient's rates).
    let mut rt = demo_scene();
    rt.root_node = SceneNode::new(0, String::from("root"));
    let w = 8u32;
    let h = 64u32;
    let buf = rt.render(w, h);
    assert_eq!(buf.len(), (3 * w * h) as usize);
    let near_top = pixel(&buf, w, 4, 12);
    let near_bottom = pixel(&buf, w, 4, 60);
    // Row 12 of 64 is above the gradient's onset: pure black unless a
    // star appears (gray, so blue == red).
    assert!(near_top.2 == 0 || near_top.0 == near_top.2);
    assert!(near_bottom.2 > 64, "bottom rows carry a strong gradient");
}

#[test]
fn single_pixel_render_works() {
    let rt = demo_scene();
    let buf = rt.render(1, 1);
    assert_eq!(buf.len(), 3);
}
