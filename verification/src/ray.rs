//! Rays: a source point and a direction.
//!
//! Constructors normalize the direction.  A direction whose squared norm
//! truncates to zero cannot be normalized in fixed point; it is kept as it
//! is, and every consumer of a ray is total over such degenerate values, so
//! the scene builder is the one place that must refuse zero-length
//! directions.

use vstd::prelude::*;
use crate::affine::{a3_apply_point, a3_apply_vec, Affine, A3};
use crate::vec3::{v3_add, v3_normalize, v3_scale, v3_sub, Vec3, V3};

verus! {

/// A parametric line: `src + t * dir`.
#[derive(Clone, Copy, Debug, PartialEq, Eq, Structural)]
pub struct Ray {
    pub src: Vec3,
    pub dir: Vec3,
}

/// The mathematical value of a `Ray`.
pub ghost struct RayV {
    pub src: V3,
    pub dir: V3,
}

impl View for Ray {
    type V = RayV;

    open spec fn view(&self) -> RayV {
        RayV { src: self.src@, dir: self.dir@ }
    }
}

/// Model of the point a ray reaches at parameter `t`.
pub open spec fn ray_at(r: RayV, t: int) -> V3 {
    v3_add(r.src, v3_scale(r.dir, t))
}

/// Model of carrying a ray through an affine map: both fields are mapped,
/// then the direction is normalized again.
pub open spec fn ray_transform(a: A3, r: RayV) -> RayV {
    RayV { src: a3_apply_point(a, r.src), dir: v3_normalize(a3_apply_vec(a, r.dir)) }
}

impl Ray {
    /// Build a ray; the direction is normalized.
    pub fn new(src: Vec3, dir: Vec3) -> (r: Ray)
        ensures
            r@.src == src@,
            r@.dir == v3_normalize(dir@),
    {
        Ray { src, dir: dir.normalize() }
    }

    /// Build a ray from a source point toward a destination point.
    pub fn new_from_points(src: Vec3, dst: Vec3) -> (r: Ray)
        ensures
            r@.src == src@,
            r@.dir == v3_normalize(v3_sub(dst@, src@)),
    {
        Ray { src, dir: dst.sub(&src).normalize() }
    }

    /// The direction, normalized once more.
    pub fn unit_dir(&self) -> (r: Vec3)
        ensures
            r@ == v3_normalize(self@.dir),
    {
        self.dir.normalize()
    }

    /// The point the ray reaches at parameter `t`.
    pub fn at(&self, t: i64) -> (r: Vec3)
        ensures
            r@ == ray_at(self@, t as int),
    {
        self.src.add(&self.dir.scale(t))
    }

    /// Carry the ray through an affine map.
    pub fn transform(&self, a: &Affine) -> (r: Ray)
        ensures
            r@ == ray_transform(a@, self@),
    {
        Ray { src: a.apply_point(&self.src), dir: a.apply_vec(&self.dir).normalize() }
    }
}

} // verus!
