use lucis::fx::FX_ONE;
use lucis::material::Material;
use lucis::node::{Intersect, SceneNode};
use lucis::primitive::Primitive;
use lucis::ray::Ray;
use lucis::vec3::Vec3;

fn fx(v: f64) -> i64 {
    (v * 65536.0).round() as i64
}

fn sphere_node(id: u32) -> SceneNode {
    let mut n = SceneNode::new(id, String::from("sphere"));
    n.primitive = Primitive::Sphere;
    n.material = Material::phong(
        lucis::color::Color::new(fx(0.5), fx(0.5), fx(0.5)),
        lucis::color::Color::new(0, 0, 0),
        8,
    );
    n
}

#[test]
fn plain_sphere_hit_through_the_root() {
    let mut root = SceneNode::new(0, String::from("root"));
    root.add_child(sphere_node(1));
    let ray = Ray::new(Vec3::new(0, 0, fx(3.0)), Vec3::new(0, 0, -fx(1.0)));
    let hit = root.intersects(&ray).expect("ray must hit the sphere");
    assert_eq!(hit.node_id, 1);
    assert!((hit.point.z - fx(1.0)).abs() <= fx(0.01), "z was {}", hit.point.z);
    assert!((hit.normal.z - FX_ONE).abs() <= fx(0.02));
}

#[test]
fn translated_sphere_moves_the_hit() {
    let mut child = sphere_node(1);
    child.translate(fx(5.0), 0, 0);
    let mut root = SceneNode::new(0, String::from("root"));
    root.add_child(child);
    let ray = Ray::new(Vec3::new(fx(10.0), 0, 0), Vec3::new(-fx(1.0), 0, 0));
    let hit = root.intersects(&ray).expect("ray must hit the moved sphere");
    assert!((hit.point.x - fx(6.0)).abs() <= fx(0.02), "x was {}", hit.point.x);
}

// Nearest-hit selection is transform-invariant: a non-uniform scale
// applied on a child node gives the same world hit as the same scale
// applied one level up.
#[test]
fn non_uniform_scale_matches_across_nesting() {
    // Scene one: root -> child sphere scaled (2, 1, 1).
    let mut child = sphere_node(1);
    child.scale(fx(2.0), fx(1.0), fx(1.0));
    let mut root_one = SceneNode::new(0, String::from("root"));
    root_one.add_child(child);

    // Scene two: root -> middle (carrying the scale) -> plain sphere.
    let mut inner = sphere_node(1);
    let mut middle = SceneNode::new(2, String::from("scaled"));
    middle.scale(fx(2.0), fx(1.0), fx(1.0));
    middle.add_child(inner);
    let mut root_two = SceneNode::new(0, String::from("root"));
    root_two.add_child(middle);

    let ray = Ray::new(Vec3::new(fx(6.0), fx(0.2), fx(0.1)), Vec3::new(-fx(1.0), 0, 0));
    let h1 = root_one.intersects(&ray).expect("scene one must hit");
    let h2 = root_two.intersects(&ray).expect("scene two must hit");
    let tol = fx(0.02);
    assert!((h1.point.x - h2.point.x).abs() <= tol, "{} vs {}", h1.point.x, h2.point.x);
    assert!((h1.point.y - h2.point.y).abs() <= tol);
    assert!((h1.point.z - h2.point.z).abs() <= tol);
}

#[test]
fn nearest_of_two_spheres_wins() {
    let mut near = sphere_node(1);
    near.translate(0, 0, fx(5.0));
    let mut far = sphere_node(2);
    far.translate(0, 0, -fx(5.0));
    let mut root = SceneNode::new(0, String::from("root"));
    root.add_child(far);
    root.add_child(near);
    let ray = Ray::new(Vec3::new(0, 0, fx(10.0)), Vec3::new(0, 0, -fx(1.0)));
    let hit = root.intersects(&ray).expect("ray must hit something");
    assert_eq!(hit.node_id, 1, "the nearer sphere must win");
    assert!((hit.point.z - fx(6.0)).abs() <= fx(0.02));
}

#[test]
fn rotation_keeps_its_inverse_in_step() {
    // Rotating a sphere cannot move it; the hit stays put even through
    // the rotated frame and its inverse.
    let mut child = sphere_node(1);
    child.rotate("y", fx(90.0));
    let mut root = SceneNode::new(0, String::from("root"));
    root.add_child(child);
    let ray = Ray::new(Vec3::new(0, 0, fx(3.0)), Vec3::new(0, 0, -fx(1.0)));
    let hit = root.intersects(&ray).expect("ray must hit the rotated sphere");
    assert!((hit.point.z - fx(1.0)).abs() <= fx(0.03), "z was {}", hit.point.z);
}

#[test]
fn empty_node_reports_nothing() {
    let root = SceneNode::new(0, String::from("root"));
    let ray = Ray::new(Vec3::new(0, 0, fx(3.0)), Vec3::new(0, 0, -fx(1.0)));
    assert!(root.intersects(&ray).is_none());
}
