use lucis::fx::FX_ONE;
use lucis::mesh::{triangle_collides, Face, Mesh};
use lucis::ray::Ray;
use lucis::vec3::Vec3;

fn fx(v: f64) -> i64 {
    (v * 65536.0).round() as i64
}

fn unit_triangle() -> (Vec3, Vec3, Vec3) {
    (
        Vec3::new(0, 0, 0),
        Vec3::new(fx(1.0), 0, 0),
        Vec3::new(0, fx(1.0), 0),
    )
}

#[test]
fn triangle_hit_inside() {
    let (a, b, c) = unit_triangle();
    let ray = Ray::new(Vec3::new(fx(0.25), fx(0.25), fx(1.0)), Vec3::new(0, 0, -fx(1.0)));
    let hit = triangle_collides(&ray, &a, &b, &c).expect("ray must hit the triangle");
    assert!((hit.t_value - fx(1.0)).abs() <= fx(0.01));
    assert!((hit.normal.z - FX_ONE).abs() <= fx(0.01));
}

#[test]
fn triangle_miss_outside() {
    let (a, b, c) = unit_triangle();
    let ray = Ray::new(Vec3::new(fx(0.9), fx(0.9), fx(1.0)), Vec3::new(0, 0, -fx(1.0)));
    assert!(triangle_collides(&ray, &a, &b, &c).is_none());
}

#[test]
fn triangle_back_face_is_culled() {
    let (a, b, c) = unit_triangle();
    // Same line from the other side: the face normal points along +z, so
    // a ray travelling along +z sees the back face.
    let ray = Ray::new(Vec3::new(fx(0.25), fx(0.25), -fx(1.0)), Vec3::new(0, 0, fx(1.0)));
    assert!(triangle_collides(&ray, &a, &b, &c).is_none());
}

#[test]
fn mesh_constructor_computes_bounding_box() {
    let vertices = vec![
        Vec3::new(-fx(1.0), 0, fx(2.0)),
        Vec3::new(fx(3.0), -fx(2.0), fx(1.0)),
        Vec3::new(0, fx(1.0), fx(4.0)),
    ];
    let faces = vec![Face { v0: 0, v1: 1, v2: 2 }];
    let mesh = Mesh::new(vertices, faces).expect("well-formed mesh");
    assert_eq!(mesh.aabb_corner.x, -fx(1.0));
    assert_eq!(mesh.aabb_corner.y, -fx(2.0));
    assert_eq!(mesh.aabb_corner.z, fx(1.0));
    assert_eq!(mesh.aabb_size.x, fx(4.0));
    assert_eq!(mesh.aabb_size.y, fx(3.0));
    assert_eq!(mesh.aabb_size.z, fx(3.0));
}

#[test]
fn mesh_rejects_bad_face_index() {
    let vertices = vec![Vec3::zero(), Vec3::new(fx(1.0), 0, 0)];
    let faces = vec![Face { v0: 0, v1: 1, v2: 2 }];
    assert!(Mesh::new(vertices, faces).is_none());
}

#[test]
fn mesh_keeps_the_closest_triangle() {
    // Two parallel triangles; the ray must report the nearer one.
    let vertices = vec![
        // Far triangle at z = 0.
        Vec3::new(-fx(1.0), -fx(1.0), 0),
        Vec3::new(fx(2.0), -fx(1.0), 0),
        Vec3::new(-fx(1.0), fx(2.0), 0),
        // Near triangle at z = 1.
        Vec3::new(-fx(1.0), -fx(1.0), fx(1.0)),
        Vec3::new(fx(2.0), -fx(1.0), fx(1.0)),
        Vec3::new(-fx(1.0), fx(2.0), fx(1.0)),
    ];
    let faces = vec![
        Face { v0: 0, v1: 1, v2: 2 },
        Face { v0: 3, v1: 4, v2: 5 },
    ];
    let mesh = Mesh::new(vertices, faces).expect("well-formed mesh");
    let ray = Ray::new(Vec3::new(0, 0, fx(3.0)), Vec3::new(0, 0, -fx(1.0)));
    let hit = mesh.collides(&ray).expect("ray must hit the mesh");
    assert!((hit.t_value - fx(2.0)).abs() <= fx(0.01), "t was {}", hit.t_value);
}

#[test]
fn mesh_bounding_box_rejects_cheaply() {
    let vertices = vec![
        Vec3::new(0, 0, 0),
        Vec3::new(fx(1.0), 0, 0),
        Vec3::new(0, fx(1.0), 0),
    ];
    let faces = vec![Face { v0: 0, v1: 1, v2: 2 }];
    let mesh = Mesh::new(vertices, faces).expect("well-formed mesh");
    let ray = Ray::new(Vec3::new(fx(5.0), fx(5.0), fx(1.0)), Vec3::new(fx(1.0), 0, 0));
    assert!(mesh.collides(&ray).is_none());
}
