//! Affine maps over fixed-point scalars: a 3x3 linear part (row major)
//! and a translation.
//!
//! Scene transforms are built by composing elementary scalings, rotations
//! and translations; each constructor also has an elementary inverse, so a
//! node can keep its inverse map in step with its forward map without a
//! general matrix inversion.

use vstd::prelude::*;
use crate::fx::{fx_add, fx_add_e, fx_div, fx_div_e, fx_mul, fx_mul_e, FX_ONE};
use crate::vec3::{v3_add, Vec3, V3};

verus! {

/// An affine map; `mRC` is the linear entry at row `R`, column `C`.
#[derive(Clone, Copy, Debug, PartialEq, Eq, Structural)]
pub struct Affine {
    pub m00: i64,
    pub m01: i64,
    pub m02: i64,
    pub m10: i64,
    pub m11: i64,
    pub m12: i64,
    pub m20: i64,
    pub m21: i64,
    pub m22: i64,
    pub tx: i64,
    pub ty: i64,
    pub tz: i64,
}

/// The mathematical value of an `Affine`.
pub ghost struct A3 {
    pub m00: int,
    pub m01: int,
    pub m02: int,
    pub m10: int,
    pub m11: int,
    pub m12: int,
    pub m20: int,
    pub m21: int,
    pub m22: int,
    pub t: V3,
}

impl View for Affine {
    type V = A3;

    open spec fn view(&self) -> A3 {
        A3 {
            m00: self.m00 as int,
            m01: self.m01 as int,
            m02: self.m02 as int,
            m10: self.m10 as int,
            m11: self.m11 as int,
            m12: self.m12 as int,
            m20: self.m20 as int,
            m21: self.m21 as int,
            m22: self.m22 as int,
            t: V3 { x: self.tx as int, y: self.ty as int, z: self.tz as int },
        }
    }
}

/// Model of a row-times-vector product.
pub open spec fn row_dot(a: int, b: int, c: int, v: V3) -> int {
    fx_add(fx_add(fx_mul(a, v.x), fx_mul(b, v.y)), fx_mul(c, v.z))
}

/// Model of applying the linear part to a direction.
pub open spec fn a3_apply_vec(a: A3, v: V3) -> V3 {
    V3 {
        x: row_dot(a.m00, a.m01, a.m02, v),
        y: row_dot(a.m10, a.m11, a.m12, v),
        z: row_dot(a.m20, a.m21, a.m22, v),
    }
}

/// Model of applying the whole map to a point.
pub open spec fn a3_apply_point(a: A3, v: V3) -> V3 {
    v3_add(a3_apply_vec(a, v), a.t)
}

/// Model of applying the transposed linear part to a direction (the rule for
/// carrying normals through the inverse map).
pub open spec fn a3_apply_transpose_vec(a: A3, v: V3) -> V3 {
    V3 {
        x: row_dot(a.m00, a.m10, a.m20, v),
        y: row_dot(a.m01, a.m11, a.m21, v),
        z: row_dot(a.m02, a.m12, a.m22, v),
    }
}

/// Model of composition: `a3_compose(a, b)` applies `b` first, then `a`.
pub open spec fn a3_compose(a: A3, b: A3) -> A3 {
    A3 {
        m00: row_dot(a.m00, a.m01, a.m02, V3 { x: b.m00, y: b.m10, z: b.m20 }),
        m01: row_dot(a.m00, a.m01, a.m02, V3 { x: b.m01, y: b.m11, z: b.m21 }),
        m02: row_dot(a.m00, a.m01, a.m02, V3 { x: b.m02, y: b.m12, z: b.m22 }),
        m10: row_dot(a.m10, a.m11, a.m12, V3 { x: b.m00, y: b.m10, z: b.m20 }),
        m11: row_dot(a.m10, a.m11, a.m12, V3 { x: b.m01, y: b.m11, z: b.m21 }),
        m12: row_dot(a.m10, a.m11, a.m12, V3 { x: b.m02, y: b.m12, z: b.m22 }),
        m20: row_dot(a.m20, a.m21, a.m22, V3 { x: b.m00, y: b.m10, z: b.m20 }),
        m21: row_dot(a.m20, a.m21, a.m22, V3 { x: b.m01, y: b.m11, z: b.m21 }),
        m22: row_dot(a.m20, a.m21, a.m22, V3 { x: b.m02, y: b.m12, z: b.m22 }),
        t: a3_apply_point(a, b.t),
    }
}

/// Model of the identity map.
pub open spec fn a3_identity() -> A3 {
    A3 {
        m00: FX_ONE as int,
        m01: 0,
        m02: 0,
        m10: 0,
        m11: FX_ONE as int,
        m12: 0,
        m20: 0,
        m21: 0,
        m22: FX_ONE as int,
        t: V3 { x: 0, y: 0, z: 0 },
    }
}

/// Model of a (possibly non-uniform) scaling.
pub open spec fn a3_scaling(x: int, y: int, z: int) -> A3 {
    A3 {
        m00: x,
        m01: 0,
        m02: 0,
        m10: 0,
        m11: y,
        m12: 0,
        m20: 0,
        m21: 0,
        m22: z,
        t: V3 { x: 0, y: 0, z: 0 },
    }
}

/// Model of a translation.
pub open spec fn a3_translation(x: int, y: int, z: int) -> A3 {
    A3 {
        m00: FX_ONE as int,
        m01: 0,
        m02: 0,
        m10: 0,
        m11: FX_ONE as int,
        m12: 0,
        m20: 0,
        m21: 0,
        m22: FX_ONE as int,
        t: V3 { x: x, y: y, z: z },
    }
}

/// Model of a rotation about the x axis with the given cosine and sine.
pub open spec fn a3_rotation_x(c: int, s: int) -> A3 {
    A3 {
        m00: FX_ONE as int,
        m01: 0,
        m02: 0,
        m10: 0,
        m11: c,
        m12: -s,
        m20: 0,
        m21: s,
        m22: c,
        t: V3 { x: 0, y: 0, z: 0 },
    }
}

/// Model of a rotation about the y axis with the given cosine and sine.
pub open spec fn a3_rotation_y(c: int, s: int) -> A3 {
    A3 {
        m00: c,
        m01: 0,
        m02: s,
        m10: 0,
        m11: FX_ONE as int,
        m12: 0,
        m20: -s,
        m21: 0,
        m22: c,
        t: V3 { x: 0, y: 0, z: 0 },
    }
}

/// Model of a rotation about the z axis with the given cosine and sine.
pub open spec fn a3_rotation_z(c: int, s: int) -> A3 {
    A3 {
        m00: c,
        m01: -s,
        m02: 0,
        m10: s,
        m11: c,
        m12: 0,
        m20: 0,
        m21: 0,
        m22: FX_ONE as int,
        t: V3 { x: 0, y: 0, z: 0 },
    }
}

impl Affine {
    /// The identity map.
    pub fn identity() -> (r: Affine)
        ensures
            r@ == a3_identity(),
    {
        Affine {
            m00: FX_ONE,
            m01: 0,
            m02: 0,
            m10: 0,
            m11: FX_ONE,
            m12: 0,
            m20: 0,
            m21: 0,
            m22: FX_ONE,
            tx: 0,
            ty: 0,
            tz: 0,
        }
    }

    /// A scaling map.
    pub fn scaling(x: i64, y: i64, z: i64) -> (r: Affine)
        ensures
            r@ == a3_scaling(x as int, y as int, z as int),
    {
        Affine {
            m00: x,
            m01: 0,
            m02: 0,
            m10: 0,
            m11: y,
            m12: 0,
            m20: 0,
            m21: 0,
            m22: z,
            tx: 0,
            ty: 0,
            tz: 0,
        }
    }

    /// The inverse of `scaling(x, y, z)` up to truncation.
    pub fn scaling_inverse(x: i64, y: i64, z: i64) -> (r: Affine)
        requires
            x != 0,
            y != 0,
            z != 0,
        ensures
            r@ == a3_scaling(
                fx_div(FX_ONE as int, x as int),
                fx_div(FX_ONE as int, y as int),
                fx_div(FX_ONE as int, z as int),
            ),
    {
        Affine::scaling(fx_div_e(FX_ONE, x), fx_div_e(FX_ONE, y), fx_div_e(FX_ONE, z))
    }

    /// A translation map.
    pub fn translation(x: i64, y: i64, z: i64) -> (r: Affine)
        ensures
            r@ == a3_translation(x as int, y as int, z as int),
    {
        Affine {
            m00: FX_ONE,
            m01: 0,
            m02: 0,
            m10: 0,
            m11: FX_ONE,
            m12: 0,
            m20: 0,
            m21: 0,
            m22: FX_ONE,
            tx: x,
            ty: y,
            tz: z,
        }
    }

    /// A rotation about the x axis, from a cosine and sine.
    pub fn rotation_x(c: i64, s: i64) -> (r: Affine)
        requires
            s != i64::MIN,
        ensures
            r@ == a3_rotation_x(c as int, s as int),
    {
        Affine {
            m00: FX_ONE,
            m01: 0,
            m02: 0,
            m10: 0,
            m11: c,
            m12: -s,
            m20: 0,
            m21: s,
            m22: c,
            tx: 0,
            ty: 0,
            tz: 0,
        }
    }

    /// A rotation about the y axis, from a cosine and sine.
    pub fn rotation_y(c: i64, s: i64) -> (r: Affine)
        requires
            s != i64::MIN,
        ensures
            r@ == a3_rotation_y(c as int, s as int),
    {
        Affine {
            m00: c,
            m01: 0,
            m02: s,
            m10: 0,
            m11: FX_ONE,
            m12: 0,
            m20: -s,
            m21: 0,
            m22: c,
            tx: 0,
            ty: 0,
            tz: 0,
        }
    }

    /// A rotation about the z axis, from a cosine and sine.
    pub fn rotation_z(c: i64, s: i64) -> (r: Affine)
        requires
            s != i64::MIN,
        ensures
            r@ == a3_rotation_z(c as int, s as int),
    {
        Affine {
            m00: c,
            m01: -s,
            m02: 0,
            m10: s,
            m11: c,
            m12: 0,
            m20: 0,
            m21: 0,
            m22: FX_ONE,
            tx: 0,
            ty: 0,
            tz: 0,
        }
    }

    /// Apply the linear part to a direction.
    pub fn apply_vec(&self, v: &Vec3) -> (r: Vec3)
        ensures
            r@ == a3_apply_vec(self@, v@),
    {
        Vec3 {
            x: fx_add_e(fx_add_e(fx_mul_e(self.m00, v.x), fx_mul_e(self.m01, v.y)), fx_mul_e(self.m02, v.z)),
            y: fx_add_e(fx_add_e(fx_mul_e(self.m10, v.x), fx_mul_e(self.m11, v.y)), fx_mul_e(self.m12, v.z)),
            z: fx_add_e(fx_add_e(fx_mul_e(self.m20, v.x), fx_mul_e(self.m21, v.y)), fx_mul_e(self.m22, v.z)),
        }
    }

    /// Apply the whole map to a point.
    pub fn apply_point(&self, v: &Vec3) -> (r: Vec3)
        ensures
            r@ == a3_apply_point(self@, v@),
    {
        let lin = self.apply_vec(v);
        Vec3 {
            x: fx_add_e(lin.x, self.tx),
            y: fx_add_e(lin.y, self.ty),
            z: fx_add_e(lin.z, self.tz),
        }
    }

    /// Apply the transposed linear part to a direction.
    pub fn apply_transpose_vec(&self, v: &Vec3) -> (r: Vec3)
        ensures
            r@ == a3_apply_transpose_vec(self@, v@),
    {
        Vec3 {
            x: fx_add_e(fx_add_e(fx_mul_e(self.m00, v.x), fx_mul_e(self.m10, v.y)), fx_mul_e(self.m20, v.z)),
            y: fx_add_e(fx_add_e(fx_mul_e(self.m01, v.x), fx_mul_e(self.m11, v.y)), fx_mul_e(self.m21, v.z)),
            z: fx_add_e(fx_add_e(fx_mul_e(self.m02, v.x), fx_mul_e(self.m12, v.y)), fx_mul_e(self.m22, v.z)),
        }
    }

    /// Composition: the returned map applies `other` first, then `self`.
    pub fn compose(&self, other: &Affine) -> (r: Affine)
        ensures
            r@ == a3_compose(self@, other@),
    {
        let c0 = self.apply_vec(&Vec3 { x: other.m00, y: other.m10, z: other.m20 });
        let c1 = self.apply_vec(&Vec3 { x: other.m01, y: other.m11, z: other.m21 });
        let c2 = self.apply_vec(&Vec3 { x: other.m02, y: other.m12, z: other.m22 });
        let t = self.apply_point(&Vec3 { x: other.tx, y: other.ty, z: other.tz });
        Affine {
            m00: c0.x,
            m01: c1.x,
            m02: c2.x,
            m10: c0.y,
            m11: c1.y,
            m12: c2.y,
            m20: c0.z,
            m21: c1.z,
            m22: c2.z,
            tx: t.x,
            ty: t.y,
            tz: t.z,
        }
    }
}

} // verus!
