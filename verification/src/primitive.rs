//! Ray intersection tests for the closed set of shapes, each in its local
//! unit coordinate frame.
//!
//! Every test takes a ray and returns an optional hit record (parameter,
//! normal, surface coordinates), and is specified exactly by a spec-level
//! model.  A root at or below `T_EPS` counts as behind the ray origin and is
//! rejected, which suppresses self-intersection artifacts.
//!
//! The cylinder is side-wall only: rays that would enter through a flat end
//! cap are attributed to the nearest side-wall root or missed, never to the
//! cap.  The quadratic solver replaces the usual floating-point one: a
//! degenerate (`a == 0`) quadratic is treated as linear, and a linear
//! equation with `b == 0` has no roots.

use vstd::prelude::*;
use crate::fx::{
    fx_add, fx_add_e, fx_div, fx_div_e, fx_mul, fx_mul_e, fx_sqrt, fx_sqrt_spec, fx_sub,
    fx_sub_e, spec_abs, FX_ONE,
};
use crate::mesh::{mesh_hit_spec, Mesh};
use crate::ray::{ray_at, Ray, RayV};
use crate::vec3::{v3_dot, v3_normalize, Vec3, V3};

verus! {

/// Smallest ray parameter that counts as a forward hit.
pub const T_EPS: i64 = 7;

/// Distance below which a hit point counts as lying on a cube face.
pub const CLOSE_EPS: i64 = 66;

/// A successful intersection in the local frame: ray parameter, surface
/// normal, and surface coordinates for texturing.
#[derive(Clone, Copy, Debug, PartialEq, Eq, Structural)]
pub struct HitRecord {
    pub t_value: i64,
    pub normal: Vec3,
    pub u_value: i64,
    pub v_value: i64,
}

/// The mathematical value of a `HitRecord`.
pub ghost struct HitV {
    pub t: int,
    pub normal: V3,
    pub u: int,
    pub v: int,
}

impl View for HitRecord {
    type V = HitV;

    open spec fn view(&self) -> HitV {
        HitV { t: self.t_value as int, normal: self.normal@, u: self.u_value as int, v: self.v_value as int }
    }
}

/// The view of an optional hit record.
pub open spec fn hit_view(o: Option<HitRecord>) -> Option<HitV> {
    match o {
        Option::Some(h) => Option::Some(h@),
        Option::None => Option::None,
    }
}

/// Roots of a quadratic, in ascending order.
#[derive(Clone, Copy, Debug, PartialEq, Eq, Structural)]
pub enum Roots {
    No,
    One(i64),
    Two(i64, i64),
}

/// The mathematical value of `Roots`.
pub ghost enum RootsV {
    No,
    One(int),
    Two(int, int),
}

impl View for Roots {
    type V = RootsV;

    open spec fn view(&self) -> RootsV {
        match *self {
            Roots::No => RootsV::No,
            Roots::One(t) => RootsV::One(t as int),
            Roots::Two(t1, t2) => RootsV::Two(t1 as int, t2 as int),
        }
    }
}

/// Model of the fixed-point quadratic solver for `a*t^2 + b*t + c == 0`.
pub open spec fn quadratic_roots(a: int, b: int, c: int) -> RootsV {
    if a == 0 {
        if b == 0 {
            RootsV::No
        } else {
            RootsV::One(fx_div(fx_sub(0, c), b))
        }
    } else {
        let disc = fx_sub(fx_mul(b, b), fx_mul(fx_mul(4 * FX_ONE as int, a), c));
        let two_a = fx_add(a, a);
        if disc < 0 {
            RootsV::No
        } else if disc == 0 {
            RootsV::One(fx_div(fx_sub(0, b), two_a))
        } else {
            let s = fx_sqrt_spec(disc);
            let r1 = fx_div(fx_sub(fx_sub(0, b), s), two_a);
            let r2 = fx_div(fx_add(fx_sub(0, b), s), two_a);
            if r1 <= r2 {
                RootsV::Two(r1, r2)
            } else {
                RootsV::Two(r2, r1)
            }
        }
    }
}

/// Solve `a*t^2 + b*t + c == 0` in fixed point.
pub fn find_roots_quadratic(a: i64, b: i64, c: i64) -> (r: Roots)
    ensures
        r@ == quadratic_roots(a as int, b as int, c as int),
{
    if a == 0 {
        if b == 0 {
            Roots::No
        } else {
            Roots::One(fx_div_e(fx_sub_e(0, c), b))
        }
    } else {
        let disc = fx_sub_e(fx_mul_e(b, b), fx_mul_e(fx_mul_e(4 * FX_ONE, a), c));
        let two_a = fx_add_e(a, a);
        if disc < 0 {
            Roots::No
        } else if disc == 0 {
            Roots::One(fx_div_e(fx_sub_e(0, b), two_a))
        } else {
            let s = fx_sqrt(disc);
            let r1 = fx_div_e(fx_sub_e(fx_sub_e(0, b), s), two_a);
            let r2 = fx_div_e(fx_add_e(fx_sub_e(0, b), s), two_a);
            if r1 <= r2 {
                Roots::Two(r1, r2)
            } else {
                Roots::Two(r2, r1)
            }
        }
    }
}

/// Model of one axis of the slab test: the parameter interval (sorted) in
/// which the ray is between the two planes, `None` when the ray runs
/// parallel to the slab on its outside.  A parallel ray inside gets the full
/// parameter range, the correctly-full interval.
pub open spec fn axis_interval(src: int, dir: int, lo: int, hi: int) -> Option<(int, int)> {
    if dir == 0 {
        if lo <= src <= hi {
            Option::Some((i64::MIN as int, i64::MAX as int))
        } else {
            Option::None
        }
    } else {
        let t1 = fx_div(fx_sub(lo, src), dir);
        let t2 = fx_div(fx_sub(hi, src), dir);
        if t1 <= t2 {
            Option::Some((t1, t2))
        } else {
            Option::Some((t2, t1))
        }
    }
}

/// Model of the slab test of a ray against an axis-aligned box given by its
/// low corner and size: no roots, one root (origin inside, the exit), or the
/// entry and exit parameters.
pub open spec fn aabb_roots_spec(r: RayV, pos: V3, size: V3) -> RootsV {
    let ix = axis_interval(r.src.x, r.dir.x, pos.x, fx_add(pos.x, size.x));
    let iy = axis_interval(r.src.y, r.dir.y, pos.y, fx_add(pos.y, size.y));
    let iz = axis_interval(r.src.z, r.dir.z, pos.z, fx_add(pos.z, size.z));
    if ix is None || iy is None || iz is None {
        RootsV::No
    } else {
        let (xl, xh) = ix->Some_0;
        let (yl, yh) = iy->Some_0;
        let (zl, zh) = iz->Some_0;
        let tmin = if yl > xl { yl } else { xl };
        let tmin = if zl > tmin { zl } else { tmin };
        let tmax = if yh < xh { yh } else { xh };
        let tmax = if zh < tmax { zh } else { tmax };
        if tmin > tmax {
            RootsV::No
        } else if tmin <= T_EPS as int {
            if tmax <= T_EPS as int {
                RootsV::No
            } else {
                RootsV::One(tmax)
            }
        } else {
            RootsV::Two(tmin, tmax)
        }
    }
}

/// One axis of the slab test.
fn axis_interval_e(src: i64, dir: i64, lo: i64, hi: i64) -> (r: Option<(i64, i64)>)
    ensures
        match r {
            Option::Some(p) => axis_interval(src as int, dir as int, lo as int, hi as int)
                == Option::Some((p.0 as int, p.1 as int)),
            Option::None => axis_interval(src as int, dir as int, lo as int, hi as int) is None,
        },
{
    if dir == 0 {
        if lo <= src && src <= hi {
            Option::Some((i64::MIN, i64::MAX))
        } else {
            Option::None
        }
    } else {
        let t1 = fx_div_e(fx_sub_e(lo, src), dir);
        let t2 = fx_div_e(fx_sub_e(hi, src), dir);
        if t1 <= t2 {
            Option::Some((t1, t2))
        } else {
            Option::Some((t2, t1))
        }
    }
}

/// Slab test of a ray against an axis-aligned box.
pub fn aabb_collision(ray: &Ray, pos: &Vec3, size: &Vec3) -> (r: Roots)
    ensures
        r@ == aabb_roots_spec(ray@, pos@, size@),
{
    let ix = axis_interval_e(ray.src.x, ray.dir.x, pos.x, fx_add_e(pos.x, size.x));
    let iy = axis_interval_e(ray.src.y, ray.dir.y, pos.y, fx_add_e(pos.y, size.y));
    let iz = axis_interval_e(ray.src.z, ray.dir.z, pos.z, fx_add_e(pos.z, size.z));
    match (ix, iy, iz) {
        (Option::Some(x), Option::Some(y), Option::Some(z)) => {
            let tmin = if y.0 > x.0 { y.0 } else { x.0 };
            let tmin = if z.0 > tmin { z.0 } else { tmin };
            let tmax = if y.1 < x.1 { y.1 } else { x.1 };
            let tmax = if z.1 < tmax { z.1 } else { tmax };
            if tmin > tmax {
                Roots::No
            } else if tmin <= T_EPS {
                if tmax <= T_EPS {
                    Roots::No
                } else {
                    Roots::One(tmax)
                }
            } else {
                Roots::Two(tmin, tmax)
            }
        },
        _ => Roots::No,
    }
}

/// Model of the entry parameter the slab test attributes to a hit: the
/// entry root, or the exit root when the origin lies inside the box.
pub open spec fn aabb_t_spec(r: RayV, pos: V3, size: V3) -> Option<int> {
    match aabb_roots_spec(r, pos, size) {
        RootsV::No => Option::None,
        RootsV::One(t) => Option::Some(t),
        RootsV::Two(t1, t2) => Option::Some(t1),
    }
}

/// Slab test returning the hit parameter alone.
pub fn aabb_collides(ray: &Ray, pos: &Vec3, size: &Vec3) -> (r: Option<i64>)
    ensures
        match r {
            Option::Some(t) => aabb_t_spec(ray@, pos@, size@) == Option::Some(t as int),
            Option::None => aabb_t_spec(ray@, pos@, size@) is None,
        },
{
    match aabb_collision(ray, pos, size) {
        Roots::No => Option::None,
        Roots::One(t) => Option::Some(t),
        Roots::Two(t1, t2) => Option::Some(t1),
    }
}

/// `a` and `b` lie within `CLOSE_EPS` of one another.
pub open spec fn close(a: int, b: int) -> bool {
    spec_abs(fx_sub(a, b)) < CLOSE_EPS as int
}

/// `a` and `b` lie within `CLOSE_EPS` of one another.
fn close_e(a: i64, b: i64) -> (r: bool)
    ensures
        r == close(a as int, b as int),
{
    let d = fx_sub_e(a, b);
    d > -CLOSE_EPS && d < CLOSE_EPS
}

/// Model of the cube face normal at a hit point, tested in a fixed axis
/// order; the first face the point lies close to wins.
pub open spec fn cube_normal_spec(p: V3) -> V3 {
    if close(p.x, 0) {
        V3 { x: -(FX_ONE as int), y: 0, z: 0 }
    } else if close(p.x, FX_ONE as int) {
        V3 { x: FX_ONE as int, y: 0, z: 0 }
    } else if close(p.y, 0) {
        V3 { x: 0, y: -(FX_ONE as int), z: 0 }
    } else if close(p.y, FX_ONE as int) {
        V3 { x: 0, y: FX_ONE as int, z: 0 }
    } else if close(p.z, 0) {
        V3 { x: 0, y: 0, z: -(FX_ONE as int) }
    } else {
        V3 { x: 0, y: 0, z: FX_ONE as int }
    }
}

/// Model of the unit cube (`[0,1]^3`) intersection.
pub open spec fn cube_hit_spec(r: RayV) -> Option<HitV> {
    let zero = V3 { x: 0, y: 0, z: 0 };
    let ones = V3 { x: FX_ONE as int, y: FX_ONE as int, z: FX_ONE as int };
    match aabb_t_spec(r, zero, ones) {
        Option::None => Option::None,
        Option::Some(t) => Option::Some(
            HitV { t: t, normal: cube_normal_spec(ray_at(r, t)), u: 0, v: 0 },
        ),
    }
}

/// Intersection with the unit cube.
pub fn cube_collides(ray: &Ray) -> (r: Option<HitRecord>)
    ensures
        hit_view(r) == cube_hit_spec(ray@),
{
    let zero = Vec3::zero();
    let ones = Vec3::new(FX_ONE, FX_ONE, FX_ONE);
    match aabb_collides(ray, &zero, &ones) {
        Option::None => Option::None,
        Option::Some(t) => {
            let p = ray.at(t);
            let normal = if close_e(p.x, 0) {
                Vec3::new(-FX_ONE, 0, 0)
            } else if close_e(p.x, FX_ONE) {
                Vec3::new(FX_ONE, 0, 0)
            } else if close_e(p.y, 0) {
                Vec3::new(0, -FX_ONE, 0)
            } else if close_e(p.y, FX_ONE) {
                Vec3::new(0, FX_ONE, 0)
            } else if close_e(p.z, 0) {
                Vec3::new(0, 0, -FX_ONE)
            } else {
                Vec3::new(0, 0, FX_ONE)
            };
            Option::Some(HitRecord { t_value: t, normal, u_value: 0, v_value: 0 })
        },
    }
}

/// Model of the unit sphere intersection: the smaller positive root of the
/// quadratic, with the hit point itself as the normal.
pub open spec fn sphere_hit_spec(r: RayV) -> Option<HitV> {
    let l = r.src;
    let d = v3_normalize(r.dir);
    let a = v3_dot(d, d);
    let ld = v3_dot(l, d);
    let b = fx_add(ld, ld);
    let c = fx_sub(v3_dot(l, l), FX_ONE as int);
    let cand = match quadratic_roots(a, b, c) {
        RootsV::No => Option::<int>::None,
        RootsV::One(t) => Option::Some(t),
        RootsV::Two(t1, t2) => Option::Some(t1),
    };
    match cand {
        Option::None => Option::None,
        Option::Some(t) => if t > T_EPS as int {
            Option::Some(HitV { t: t, normal: ray_at(r, t), u: 0, v: 0 })
        } else {
            Option::None
        },
    }
}

/// Intersection with the unit sphere at the origin.
pub fn sphere_collides(ray: &Ray) -> (r: Option<HitRecord>)
    ensures
        hit_view(r) == sphere_hit_spec(ray@),
{
    let d = ray.unit_dir();
    let a = d.dot(&d);
    let ld = ray.src.dot(&d);
    let b = fx_add_e(ld, ld);
    let c = fx_sub_e(ray.src.dot(&ray.src), FX_ONE);
    let cand = match find_roots_quadratic(a, b, c) {
        Roots::No => Option::None,
        Roots::One(t) => Option::Some(t),
        Roots::Two(t1, t2) => Option::Some(t1),
    };
    match cand {
        Option::None => Option::None,
        Option::Some(t) => {
            if t > T_EPS {
                Option::Some(HitRecord { t_value: t, normal: ray.at(t), u_value: 0, v_value: 0 })
            } else {
                Option::None
            }
        },
    }
}

/// Model of the infinite unit cylinder (axis z) intersection, height-clipped
/// to `[-1, 1]`; side walls only.
pub open spec fn cylinder_hit_spec(r: RayV) -> Option<HitV> {
    let s = r.src;
    let d = r.dir;
    let a = fx_add(fx_mul(d.x, d.x), fx_mul(d.y, d.y));
    let m = fx_add(fx_mul(s.x, d.x), fx_mul(s.y, d.y));
    let b = fx_add(m, m);
    let c = fx_sub(fx_add(fx_mul(s.x, s.x), fx_mul(s.y, s.y)), FX_ONE as int);
    let cand = match quadratic_roots(a, b, c) {
        RootsV::No => Option::<int>::None,
        RootsV::One(t) => Option::Some(t),
        RootsV::Two(t1, t2) => {
            let z1 = ray_at(r, t1).z;
            let z2 = ray_at(r, t2).z;
            if z1 > FX_ONE as int && z2 > FX_ONE as int {
                Option::None
            } else if z1 < -(FX_ONE as int) && z2 < -(FX_ONE as int) {
                Option::None
            } else {
                Option::Some(t1)
            }
        },
    };
    match cand {
        Option::None => Option::None,
        Option::Some(t) => if t > T_EPS as int {
            let p = ray_at(r, t);
            Option::Some(HitV { t: t, normal: V3 { x: p.x, y: p.y, z: 0 }, u: 0, v: 0 })
        } else {
            Option::None
        },
    }
}

/// Intersection with the unit cylinder, height-clipped to `[-1, 1]`.
pub fn cylinder_collides(ray: &Ray) -> (r: Option<HitRecord>)
    ensures
        hit_view(r) == cylinder_hit_spec(ray@),
{
    let s = ray.src;
    let d = ray.dir;
    let a = fx_add_e(fx_mul_e(d.x, d.x), fx_mul_e(d.y, d.y));
    let m = fx_add_e(fx_mul_e(s.x, d.x), fx_mul_e(s.y, d.y));
    let b = fx_add_e(m, m);
    let c = fx_sub_e(fx_add_e(fx_mul_e(s.x, s.x), fx_mul_e(s.y, s.y)), FX_ONE);
    let cand = match find_roots_quadratic(a, b, c) {
        Roots::No => Option::None,
        Roots::One(t) => Option::Some(t),
        Roots::Two(t1, t2) => {
            let z1 = ray.at(t1).z;
            let z2 = ray.at(t2).z;
            if z1 > FX_ONE && z2 > FX_ONE {
                Option::None
            } else if z1 < -FX_ONE && z2 < -FX_ONE {
                Option::None
            } else {
                Option::Some(t1)
            }
        },
    };
    match cand {
        Option::None => Option::None,
        Option::Some(t) => {
            if t > T_EPS {
                let p = ray.at(t);
                Option::Some(HitRecord {
                    t_value: t,
                    normal: Vec3::new(p.x, p.y, 0),
                    u_value: 0,
                    v_value: 0,
                })
            } else {
                Option::None
            }
        },
    }
}

/// Model of the unit cone intersection: apex at the origin, opening along
/// +y, surface `x^2 + z^2 == y^2`, height-clipped to `[0, 1]`.  The nearer
/// acceptable root wins.
pub open spec fn cone_hit_spec(r: RayV) -> Option<HitV> {
    let s = r.src;
    let d = r.dir;
    let a = fx_sub(fx_add(fx_mul(d.x, d.x), fx_mul(d.z, d.z)), fx_mul(d.y, d.y));
    let m = fx_sub(fx_add(fx_mul(s.x, d.x), fx_mul(s.z, d.z)), fx_mul(s.y, d.y));
    let b = fx_add(m, m);
    let c = fx_sub(fx_add(fx_mul(s.x, s.x), fx_mul(s.z, s.z)), fx_mul(s.y, s.y));
    match quadratic_roots(a, b, c) {
        RootsV::No => Option::None,
        RootsV::One(t) => cone_accept_spec(r, t),
        RootsV::Two(t1, t2) => match cone_accept_spec(r, t1) {
            Option::Some(h) => Option::Some(h),
            Option::None => cone_accept_spec(r, t2),
        },
    }
}

/// Model of accepting one cone root: ahead of the origin and within the
/// height clip; the normal is the surface gradient, normalized.
pub open spec fn cone_accept_spec(r: RayV, t: int) -> Option<HitV> {
    if t > T_EPS as int {
        let p = ray_at(r, t);
        if 0 <= p.y <= FX_ONE as int {
            Option::Some(HitV {
                t: t,
                normal: v3_normalize(V3 { x: p.x, y: -p.y, z: p.z }),
                u: 0,
                v: 0,
            })
        } else {
            Option::None
        }
    } else {
        Option::None
    }
}

/// Accept one cone root.
fn cone_accept(ray: &Ray, t: i64) -> (r: Option<HitRecord>)
    ensures
        hit_view(r) == cone_accept_spec(ray@, t as int),
{
    if t > T_EPS {
        let p = ray.at(t);
        if 0 <= p.y && p.y <= FX_ONE {
            let n = Vec3::new(p.x, -p.y, p.z).normalize();
            Option::Some(HitRecord { t_value: t, normal: n, u_value: 0, v_value: 0 })
        } else {
            Option::None
        }
    } else {
        Option::None
    }
}

/// Intersection with the unit cone.
pub fn cone_collides(ray: &Ray) -> (r: Option<HitRecord>)
    ensures
        hit_view(r) == cone_hit_spec(ray@),
{
    let s = ray.src;
    let d = ray.dir;
    let a = fx_sub_e(fx_add_e(fx_mul_e(d.x, d.x), fx_mul_e(d.z, d.z)), fx_mul_e(d.y, d.y));
    let m = fx_sub_e(fx_add_e(fx_mul_e(s.x, d.x), fx_mul_e(s.z, d.z)), fx_mul_e(s.y, d.y));
    let b = fx_add_e(m, m);
    let c = fx_sub_e(fx_add_e(fx_mul_e(s.x, s.x), fx_mul_e(s.z, s.z)), fx_mul_e(s.y, s.y));
    match find_roots_quadratic(a, b, c) {
        Roots::No => Option::None,
        Roots::One(t) => cone_accept(ray, t),
        Roots::Two(t1, t2) => match cone_accept(ray, t1) {
            Option::Some(h) => Option::Some(h),
            Option::None => cone_accept(ray, t2),
        },
    }
}

/// The closed set of shapes a scene node can carry, each fixed in its local
/// unit coordinate frame.
#[derive(Clone, Debug)]
pub enum Primitive {
    Sphere,
    Cube,
    Cylinder,
    Cone,
    Mesh(Mesh),
    Empty,
}

/// The ray starts outside one slab of the box and its direction does not
/// carry it back toward that slab.
pub open spec fn slab_diverges(src: int, dir: int, lo: int, hi: int) -> bool {
    ||| (src < lo && dir <= 0)
    ||| (src > hi && dir >= 0)
}

/// A scalar small enough that the slab test's fixed-point subtractions
/// stay exact.
pub open spec fn slab_in_range(v: int) -> bool {
    -35184372088832 <= v <= 35184372088832
}

/// Dividing a nonnegative scalar by a negative one gives a nonpositive
/// quotient.
proof fn lemma_fx_div_signs(a: int, b: int)
    requires
        b != 0,
    ensures
        a >= 0 && b < 0 ==> fx_div(a, b) <= 0,
        a <= 0 && b > 0 ==> fx_div(a, b) <= 0,
{
    assert(spec_abs(a) / spec_abs(b) >= 0) by (nonlinear_arith)
        requires
            spec_abs(a) >= 0,
            spec_abs(b) >= 1;
}

/// A ray that starts outside the box and diverges from it on some axis is
/// reported as missing by the slab test.
pub proof fn lemma_aabb_diverging_misses(r: RayV, pos: V3, size: V3)
    requires
        slab_in_range(r.src.x) && slab_in_range(r.src.y) && slab_in_range(r.src.z),
        slab_in_range(pos.x) && slab_in_range(pos.y) && slab_in_range(pos.z),
        0 <= size.x && 0 <= size.y && 0 <= size.z,
        slab_in_range(size.x) && slab_in_range(size.y) && slab_in_range(size.z),
        slab_diverges(r.src.x, r.dir.x, pos.x, pos.x + size.x) || slab_diverges(
            r.src.y,
            r.dir.y,
            pos.y,
            pos.y + size.y,
        ) || slab_diverges(r.src.z, r.dir.z, pos.z, pos.z + size.z),
    ensures
        aabb_roots_spec(r, pos, size) == RootsV::No,
{
    let ix = axis_interval(r.src.x, r.dir.x, pos.x, fx_add(pos.x, size.x));
    let iy = axis_interval(r.src.y, r.dir.y, pos.y, fx_add(pos.y, size.y));
    let iz = axis_interval(r.src.z, r.dir.z, pos.z, fx_add(pos.z, size.z));
    lemma_diverging_axis_high(r.src.x, r.dir.x, pos.x, size.x);
    lemma_diverging_axis_high(r.src.y, r.dir.y, pos.y, size.y);
    lemma_diverging_axis_high(r.src.z, r.dir.z, pos.z, size.z);
    if ix is None || iy is None || iz is None {
    } else {
        assert(ix->Some_0.1 <= 0 || iy->Some_0.1 <= 0 || iz->Some_0.1 <= 0);
    }
}

/// On a diverging axis, the slab interval is empty or lies entirely at
/// nonpositive parameters.
proof fn lemma_diverging_axis_high(src: int, dir: int, lo: int, hi_size: int)
    requires
        slab_in_range(src),
        slab_in_range(lo),
        0 <= hi_size,
        slab_in_range(hi_size),
    ensures
        slab_diverges(src, dir, lo, lo + hi_size) ==> match axis_interval(
            src,
            dir,
            lo,
            fx_add(lo, hi_size),
        ) {
            Option::Some(p) => p.1 <= 0,
            Option::None => true,
        },
{
    let hi = fx_add(lo, hi_size);
    assert(hi == lo + hi_size);
    if slab_diverges(src, dir, lo, lo + hi_size) {
        if dir == 0 {
        } else {
            let t1 = fx_div(fx_sub(lo, src), dir);
            let t2 = fx_div(fx_sub(hi, src), dir);
            if src < lo && dir < 0 {
                assert(fx_sub(lo, src) >= 0);
                assert(fx_sub(hi, src) >= 0);
                lemma_fx_div_signs(fx_sub(lo, src), dir);
                lemma_fx_div_signs(fx_sub(hi, src), dir);
            } else {
                assert(src > lo + hi_size && dir > 0);
                assert(fx_sub(lo, src) <= 0);
                assert(fx_sub(hi, src) <= 0);
                lemma_fx_div_signs(fx_sub(lo, src), dir);
                lemma_fx_div_signs(fx_sub(hi, src), dir);
            }
        }
    }
}

/// A primitive is well-formed when the mesh it may carry is.
pub open spec fn primitive_wf(p: Primitive) -> bool {
    match p {
        Primitive::Mesh(m) => crate::mesh::mesh_wf(m),
        _ => true,
    }
}

/// Model of the intersection test of any primitive.
pub open spec fn primitive_hit_spec(p: Primitive, r: RayV) -> Option<HitV> {
    match p {
        Primitive::Sphere => sphere_hit_spec(r),
        Primitive::Cube => cube_hit_spec(r),
        Primitive::Cylinder => cylinder_hit_spec(r),
        Primitive::Cone => cone_hit_spec(r),
        Primitive::Mesh(m) => mesh_hit_spec(m, r),
        Primitive::Empty => Option::None,
    }
}

impl Primitive {
    /// Intersection test in the primitive's local frame.
    pub fn collides(&self, ray: &Ray) -> (r: Option<HitRecord>)
        requires
            primitive_wf(*self),
        ensures
            hit_view(r) == primitive_hit_spec(*self, ray@),
    {
        match self {
            Primitive::Sphere => sphere_collides(ray),
            Primitive::Cube => cube_collides(ray),
            Primitive::Cylinder => cylinder_collides(ray),
            Primitive::Cone => cone_collides(ray),
            Primitive::Mesh(m) => m.collides(ray),
            Primitive::Empty => Option::None,
        }
    }
}

} // verus!
