//! The result of a successful ray/scene hit.
//!
//! Alongside the hit parameter, point, normal and surface coordinates, an
//! intersection carries the identifier and material of the node that was
//! hit; the material is borrowed from the scene tree, whose lifetime bounds
//! the intersection's.

use vstd::prelude::*;
use crate::affine::{a3_apply_point, a3_apply_transpose_vec, Affine, A3};
use crate::material::Material;
use crate::vec3::{v3_normalize, Vec3, V3};

verus! {

/// A resolved hit, expressed in the frame of whoever holds it.
#[derive(Clone, Copy, Debug)]
pub struct Intersection<'a> {
    pub t_value: i64,
    pub point: Vec3,
    pub node_id: u32,
    pub material: &'a Material,
    pub normal: Vec3,
    pub u_value: i64,
    pub v_value: i64,
}

/// The mathematical value of an `Intersection`.
pub ghost struct IsectV {
    pub t: int,
    pub point: V3,
    pub node_id: int,
    pub material: Material,
    pub normal: V3,
    pub u: int,
    pub v: int,
}

impl<'a> View for Intersection<'a> {
    type V = IsectV;

    open spec fn view(&self) -> IsectV {
        IsectV {
            t: self.t_value as int,
            point: self.point@,
            node_id: self.node_id as int,
            material: *self.material,
            normal: self.normal@,
            u: self.u_value as int,
            v: self.v_value as int,
        }
    }
}

/// The view of an optional intersection.
pub open spec fn isect_view(o: Option<Intersection>) -> Option<IsectV> {
    match o {
        Option::Some(i) => Option::Some(i@),
        Option::None => Option::None,
    }
}

/// Model of carrying an intersection from a node's local frame into its
/// parent's: the point goes through the forward map, the normal through the
/// transposed linear part of the inverse map (then normalized); the
/// parameter and surface coordinates are frame-local and stay.
pub open spec fn isect_transform(i: IsectV, a: A3, ia: A3) -> IsectV {
    IsectV {
        t: i.t,
        point: a3_apply_point(a, i.point),
        node_id: i.node_id,
        material: i.material,
        normal: v3_normalize(a3_apply_transpose_vec(ia, i.normal)),
        u: i.u,
        v: i.v,
    }
}

impl<'a> Intersection<'a> {
    /// Bundle a hit.
    pub fn new(
        t_value: i64,
        point: Vec3,
        node_id: u32,
        material: &'a Material,
        normal: Vec3,
        u_value: i64,
        v_value: i64,
    ) -> (r: Intersection<'a>)
        ensures
            r@ == (IsectV {
                t: t_value as int,
                point: point@,
                node_id: node_id as int,
                material: *material,
                normal: normal@,
                u: u_value as int,
                v: v_value as int,
            }),
    {
        Intersection { t_value, point, node_id, material, normal, u_value, v_value }
    }

    /// Carry the intersection into the parent frame.
    pub fn apply_transform(self, transform: &Affine, inv_transform: &Affine) -> (r: Intersection<
        'a,
    >)
        ensures
            r@ == isect_transform(self@, transform@, inv_transform@),
    {
        let transformed_point = transform.apply_point(&self.point);
        let transformed_normal = inv_transform.apply_transpose_vec(&self.normal).normalize();
        Intersection {
            t_value: self.t_value,
            point: transformed_point,
            node_id: self.node_id,
            material: self.material,
            normal: transformed_normal,
            u_value: self.u_value,
            v_value: self.v_value,
        }
    }
}

} // verus!
