//! Points and vectors in 3-space over fixed-point scalars.
//!
//! The view of a `Vec3` is a `V3` of unbounded integers; every operation's
//! contract states the exact resulting view through the spec-level vector
//! algebra below.

use vstd::prelude::*;
use crate::fx::{
    fx_add, fx_add_e, fx_div, fx_div_e, fx_max, fx_max_e, fx_min, fx_min_e, fx_mul, fx_mul_e,
    fx_sqrt, fx_sqrt_spec, fx_sub, fx_sub_e,
};

verus! {

/// A point or direction; each component is a fixed-point scalar.
#[derive(Clone, Copy, Debug, PartialEq, Eq, Structural)]
pub struct Vec3 {
    pub x: i64,
    pub y: i64,
    pub z: i64,
}

/// The mathematical value of a `Vec3`.
pub ghost struct V3 {
    pub x: int,
    pub y: int,
    pub z: int,
}

impl View for Vec3 {
    type V = V3;

    open spec fn view(&self) -> V3 {
        V3 { x: self.x as int, y: self.y as int, z: self.z as int }
    }
}

/// Model of componentwise addition.
pub open spec fn v3_add(a: V3, b: V3) -> V3 {
    V3 { x: fx_add(a.x, b.x), y: fx_add(a.y, b.y), z: fx_add(a.z, b.z) }
}

/// Model of componentwise subtraction.
pub open spec fn v3_sub(a: V3, b: V3) -> V3 {
    V3 { x: fx_sub(a.x, b.x), y: fx_sub(a.y, b.y), z: fx_sub(a.z, b.z) }
}

/// Model of scaling by a scalar.
pub open spec fn v3_scale(a: V3, s: int) -> V3 {
    V3 { x: fx_mul(a.x, s), y: fx_mul(a.y, s), z: fx_mul(a.z, s) }
}

/// Model of the dot product.
pub open spec fn v3_dot(a: V3, b: V3) -> int {
    fx_add(fx_add(fx_mul(a.x, b.x), fx_mul(a.y, b.y)), fx_mul(a.z, b.z))
}

/// Model of the cross product.
pub open spec fn v3_cross(a: V3, b: V3) -> V3 {
    V3 {
        x: fx_sub(fx_mul(a.y, b.z), fx_mul(a.z, b.y)),
        y: fx_sub(fx_mul(a.z, b.x), fx_mul(a.x, b.z)),
        z: fx_sub(fx_mul(a.x, b.y), fx_mul(a.y, b.x)),
    }
}

/// Model of the squared norm.
pub open spec fn v3_norm2(a: V3) -> int {
    v3_dot(a, a)
}

/// Model of the norm.
pub open spec fn v3_norm(a: V3) -> int {
    fx_sqrt_spec(v3_norm2(a))
}

/// Model of normalization; a vector whose squared norm truncates to zero is
/// left unchanged (there is no finite scaling that would give it unit length).
pub open spec fn v3_normalize(a: V3) -> V3 {
    let n = v3_norm(a);
    if n <= 0 {
        a
    } else {
        V3 { x: fx_div(a.x, n), y: fx_div(a.y, n), z: fx_div(a.z, n) }
    }
}

/// Model of dividing a vector by a scalar.
pub open spec fn v3_divs(a: V3, s: int) -> V3 {
    V3 { x: fx_div(a.x, s), y: fx_div(a.y, s), z: fx_div(a.z, s) }
}

/// Model of the squared distance between two points.
pub open spec fn v3_dist2(a: V3, b: V3) -> int {
    v3_norm2(v3_sub(a, b))
}

/// Model of the distance between two points.
pub open spec fn v3_dist(a: V3, b: V3) -> int {
    fx_sqrt_spec(v3_dist2(a, b))
}

impl Vec3 {
    /// Build a vector from its components.
    pub fn new(x: i64, y: i64, z: i64) -> (r: Vec3)
        ensures
            r@ == (V3 { x: x as int, y: y as int, z: z as int }),
    {
        Vec3 { x, y, z }
    }

    /// The zero vector.
    pub fn zero() -> (r: Vec3)
        ensures
            r@ == (V3 { x: 0, y: 0, z: 0 }),
    {
        Vec3 { x: 0, y: 0, z: 0 }
    }

    /// Componentwise addition.
    pub fn add(&self, o: &Vec3) -> (r: Vec3)
        ensures
            r@ == v3_add(self@, o@),
    {
        Vec3 { x: fx_add_e(self.x, o.x), y: fx_add_e(self.y, o.y), z: fx_add_e(self.z, o.z) }
    }

    /// Componentwise subtraction.
    pub fn sub(&self, o: &Vec3) -> (r: Vec3)
        ensures
            r@ == v3_sub(self@, o@),
    {
        Vec3 { x: fx_sub_e(self.x, o.x), y: fx_sub_e(self.y, o.y), z: fx_sub_e(self.z, o.z) }
    }

    /// Scaling by a scalar.
    pub fn scale(&self, s: i64) -> (r: Vec3)
        ensures
            r@ == v3_scale(self@, s as int),
    {
        Vec3 { x: fx_mul_e(self.x, s), y: fx_mul_e(self.y, s), z: fx_mul_e(self.z, s) }
    }

    /// Division by a scalar.
    pub fn div_scalar(&self, s: i64) -> (r: Vec3)
        requires
            s != 0,
        ensures
            r@ == v3_divs(self@, s as int),
    {
        Vec3 { x: fx_div_e(self.x, s), y: fx_div_e(self.y, s), z: fx_div_e(self.z, s) }
    }

    /// Dot product.
    pub fn dot(&self, o: &Vec3) -> (r: i64)
        ensures
            r as int == v3_dot(self@, o@),
    {
        fx_add_e(fx_add_e(fx_mul_e(self.x, o.x), fx_mul_e(self.y, o.y)), fx_mul_e(self.z, o.z))
    }

    /// Cross product.
    pub fn cross(&self, o: &Vec3) -> (r: Vec3)
        ensures
            r@ == v3_cross(self@, o@),
    {
        Vec3 {
            x: fx_sub_e(fx_mul_e(self.y, o.z), fx_mul_e(self.z, o.y)),
            y: fx_sub_e(fx_mul_e(self.z, o.x), fx_mul_e(self.x, o.z)),
            z: fx_sub_e(fx_mul_e(self.x, o.y), fx_mul_e(self.y, o.x)),
        }
    }

    /// Squared norm.
    pub fn norm2(&self) -> (r: i64)
        ensures
            r as int == v3_norm2(self@),
    {
        self.dot(self)
    }

    /// Norm.
    pub fn norm(&self) -> (r: i64)
        ensures
            r as int == v3_norm(self@),
            r >= 0,
    {
        fx_sqrt(self.norm2())
    }

    /// Normalization; a vector too short to measure is returned unchanged.
    pub fn normalize(&self) -> (r: Vec3)
        ensures
            r@ == v3_normalize(self@),
    {
        let n = self.norm();
        if n <= 0 {
            *self
        } else {
            Vec3 { x: fx_div_e(self.x, n), y: fx_div_e(self.y, n), z: fx_div_e(self.z, n) }
        }
    }

    /// Squared distance to another point.
    pub fn dist2(&self, o: &Vec3) -> (r: i64)
        ensures
            r as int == v3_dist2(self@, o@),
    {
        self.sub(o).norm2()
    }

    /// Distance to another point.
    pub fn dist(&self, o: &Vec3) -> (r: i64)
        ensures
            r as int == v3_dist(self@, o@),
            r >= 0,
    {
        fx_sqrt(self.dist2(o))
    }

    /// Componentwise minimum.
    pub fn min_with(&self, o: &Vec3) -> (r: Vec3)
        ensures
            r@ == (V3 {
                x: fx_min(self@.x, o@.x),
                y: fx_min(self@.y, o@.y),
                z: fx_min(self@.z, o@.z),
            }),
    {
        Vec3 { x: fx_min_e(self.x, o.x), y: fx_min_e(self.y, o.y), z: fx_min_e(self.z, o.z) }
    }

    /// Componentwise maximum.
    pub fn max_with(&self, o: &Vec3) -> (r: Vec3)
        ensures
            r@ == (V3 {
                x: fx_max(self@.x, o@.x),
                y: fx_max(self@.y, o@.y),
                z: fx_max(self@.z, o@.z),
            }),
    {
        Vec3 { x: fx_max_e(self.x, o.x), y: fx_max_e(self.y, o.y), z: fx_max_e(self.z, o.z) }
    }
}

} // verus!
