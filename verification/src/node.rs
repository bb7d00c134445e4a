//! Scene-graph nodes and nearest-hit traversal.
//!
//! A node composes a transform (kept together with its inverse), one
//! primitive, one material and its children; child transforms are relative
//! to the parent's local frame.  Traversal transforms the incoming ray into
//! the node's frame once, tests the node's own primitive and every child
//! with that same local ray, picks the hit whose point lies closest to the
//! local ray origin (squared world distance, never the raw parameter, which
//! non-uniform scaling would distort), and maps the winner back into the
//! caller's frame.

use vstd::prelude::*;
use crate::affine::{a3_compose, Affine};
use crate::fx::FX_ONE;
use crate::intersection::{isect_transform, isect_view, Intersection, IsectV};
use crate::material::{material_wf, Material};
use crate::primitive::{primitive_hit_spec, primitive_wf, Primitive};
use crate::ray::{ray_transform, Ray, RayV};
use crate::trig::{cos_deg, cos_deg_e, sin_deg, sin_deg_e};
use vstd::string::StrSliceExecFns;
use crate::vec3::{v3_add, v3_dist2, v3_normalize, v3_scale};

verus! {

/// A tree node: a transform and its inverse, a primitive, a material, and
/// owned children.
#[derive(Debug)]
pub struct SceneNode {
    pub id: u32,
    pub children: Vec<SceneNode>,
    pub transform: Affine,
    pub inv_transform: Affine,
    pub name: String,
    pub material: Material,
    pub primitive: Primitive,
}

/// Every primitive and material in the tree is well-formed.
pub open spec fn node_wf(n: SceneNode) -> bool
    decreases n,
{
    &&& primitive_wf(n.primitive)
    &&& material_wf(n.material)
    &&& forall|i: int| 0 <= i < n.children@.len() ==> node_wf(#[trigger] n.children@[i])
}

/// Model of the best hit among the first `n` children, tested with the
/// parent's local ray; on an equal squared distance the later child wins.
pub open spec fn children_best_spec(cs: Seq<SceneNode>, n: int, r: RayV) -> Option<IsectV>
    decreases cs, n,
{
    if n <= 0 || cs.len() < n {
        Option::None
    } else {
        let prev = children_best_spec(cs, n - 1, r);
        let cur = node_hit_spec(cs[n - 1], r);
        match (prev, cur) {
            (Option::None, c) => c,
            (p, Option::None) => p,
            (Option::Some(p), Option::Some(c)) => if v3_dist2(p.point, r.src) < v3_dist2(
                c.point,
                r.src,
            ) {
                Option::Some(p)
            } else {
                Option::Some(c)
            },
        }
    }
}

/// Model of the whole traversal at one node: the ray is carried into the
/// node's frame, the node's own primitive and all children are tested, the
/// closest hit (by squared distance from the local ray origin) wins, and
/// the winner is carried back into the caller's frame.  On an equal
/// distance the children's best beats the node's own hit.
pub open spec fn node_hit_spec(n: SceneNode, r: RayV) -> Option<IsectV>
    decreases n, 1int,
{
    let tr = ray_transform(n.inv_transform@, r);
    let own = match primitive_hit_spec(n.primitive, tr) {
        Option::Some(h) => Option::Some(IsectV {
            t: h.t,
            point: v3_add(tr.src, v3_scale(v3_normalize(tr.dir), h.t)),
            node_id: n.id as int,
            material: n.material,
            normal: h.normal,
            u: h.u,
            v: h.v,
        }),
        Option::None => Option::None,
    };
    let best = children_best_spec(n.children@, n.children@.len() as int, tr);
    let chosen = match (own, best) {
        (Option::None, Option::None) => Option::<IsectV>::None,
        (Option::Some(a), Option::None) => Option::Some(a),
        (Option::None, Option::Some(b)) => Option::Some(b),
        (Option::Some(a), Option::Some(b)) => if v3_dist2(a.point, tr.src) < v3_dist2(
            b.point,
            tr.src,
        ) {
            Option::Some(a)
        } else {
            Option::Some(b)
        },
    };
    match chosen {
        Option::None => Option::None,
        Option::Some(c) => Option::Some(isect_transform(c, n.transform@, n.inv_transform@)),
    }
}

/// Something a world-space ray can be resolved against.
pub trait Intersect {
    /// The model of this object's nearest-hit resolution.
    spec fn hit_model(&self, r: RayV) -> Option<IsectV>;

    /// The model's well-formedness demand.
    spec fn hit_wf(&self) -> bool;

    /// Resolve the nearest intersection of `ray` with this object.
    fn intersects<'a>(&'a self, ray: &Ray) -> (r: Option<Intersection<'a>>)
        requires
            self.hit_wf(),
        ensures
            isect_view(r) == self.hit_model(ray@),
    ;
}

impl Intersect for SceneNode {
    open spec fn hit_model(&self, r: RayV) -> Option<IsectV> {
        node_hit_spec(*self, r)
    }

    open spec fn hit_wf(&self) -> bool {
        node_wf(*self)
    }

    /// Recursive nearest-hit traversal.
    fn intersects<'a>(&'a self, ray: &Ray) -> (r: Option<Intersection<'a>>)
        decreases *self,
    {
        let tr = ray.transform(&self.inv_transform);
        let own: Option<Intersection> = match self.primitive.collides(&tr) {
            Option::Some(h) => {
                let p = tr.src.add(&tr.dir.normalize().scale(h.t_value));
                Option::Some(Intersection {
                    t_value: h.t_value,
                    point: p,
                    node_id: self.id,
                    material: &self.material,
                    normal: h.normal,
                    u_value: h.u_value,
                    v_value: h.v_value,
                })
            },
            Option::None => Option::None,
        };
        let mut best: Option<Intersection> = Option::None;
        let mut i: usize = 0;
        while i < self.children.len()
            invariant
                0 <= i <= self.children@.len(),
                node_wf(*self),
                tr@ == ray_transform(self.inv_transform@, ray@),
                isect_view(best) == children_best_spec(self.children@, i as int, tr@),
            decreases self.children@.len() - i,
        {
            proof {
                assert(node_wf(self.children@[i as int]));
            }
            let c = self.children[i].intersects(&tr);
            best = match (best, c) {
                (Option::None, c2) => c2,
                (b, Option::None) => b,
                (Option::Some(b), Option::Some(c2)) => {
                    if b.point.dist2(&tr.src) < c2.point.dist2(&tr.src) {
                        Option::Some(b)
                    } else {
                        Option::Some(c2)
                    }
                },
            };
            i = i + 1;
        }
        let chosen = match (own, best) {
            (Option::None, Option::None) => Option::None,
            (Option::Some(a), Option::None) => Option::Some(a),
            (Option::None, Option::Some(b)) => Option::Some(b),
            (Option::Some(a), Option::Some(b)) => {
                if a.point.dist2(&tr.src) < b.point.dist2(&tr.src) {
                    Option::Some(a)
                } else {
                    Option::Some(b)
                }
            },
        };
        match chosen {
            Option::None => Option::None,
            Option::Some(c) => Option::Some(c.apply_transform(&self.transform, &self.inv_transform)),
        }
    }
}

/// In a well-formed forest, whatever hit the best-of-children fold
/// reports carries a well-formed material.
pub proof fn lemma_children_best_material_wf(cs: Seq<SceneNode>, k: int, r: RayV)
    requires
        forall|i: int| 0 <= i < cs.len() ==> node_wf(#[trigger] cs[i]),
    ensures
        children_best_spec(cs, k, r) is Some ==> material_wf(
            children_best_spec(cs, k, r)->Some_0.material,
        ),
    decreases cs, k,
{
    if k <= 0 || cs.len() < k {
    } else {
        lemma_children_best_material_wf(cs, k - 1, r);
        lemma_hit_material_wf(cs[k - 1], r);
    }
}

/// In a well-formed tree, whatever hit the traversal reports carries a
/// well-formed material.
pub proof fn lemma_hit_material_wf(n: SceneNode, r: RayV)
    requires
        node_wf(n),
    ensures
        node_hit_spec(n, r) is Some ==> material_wf(node_hit_spec(n, r)->Some_0.material),
    decreases n, 1int,
{
    lemma_children_best_material_wf(
        n.children@,
        n.children@.len() as int,
        ray_transform(n.inv_transform@, r),
    );
}

impl SceneNode {
    /// An empty node with identity transforms.
    pub fn new(id: u32, name: String) -> (n: SceneNode)
        ensures
            node_wf(n),
            n.id == id,
            n.children@.len() == 0,
            n.transform@ == crate::affine::a3_identity(),
            n.inv_transform@ == crate::affine::a3_identity(),
            n.material is Empty,
            n.primitive is Empty,
    {
        SceneNode {
            id,
            children: Vec::new(),
            transform: Affine::identity(),
            inv_transform: Affine::identity(),
            name,
            material: Material::Empty,
            primitive: Primitive::Empty,
        }
    }

    /// Append a child.
    pub fn add_child(&mut self, child: SceneNode)
        ensures
            final(self).children@ == old(self).children@.push(child),
            final(self).id == old(self).id,
            final(self).transform == old(self).transform,
            final(self).inv_transform == old(self).inv_transform,
            final(self).material == old(self).material,
            final(self).primitive == old(self).primitive,
    {
        self.children.push(child);
    }

    /// Compose a further map onto this node's transform, and its inverse
    /// onto the inverse transform.
    fn apply_transform(&mut self, t: &Affine, t_inv: &Affine)
        ensures
            final(self).transform@ == a3_compose(t@, old(self).transform@),
            final(self).inv_transform@ == a3_compose(old(self).inv_transform@, t_inv@),
            final(self).id == old(self).id,
            final(self).children == old(self).children,
            final(self).material == old(self).material,
            final(self).primitive == old(self).primitive,
    {
        self.transform = t.compose(&self.transform);
        self.inv_transform = self.inv_transform.compose(t_inv);
    }

    /// Scale the node; a zero factor has no inverse and is a data error
    /// the caller must rule out.
    pub fn scale(&mut self, x: i64, y: i64, z: i64)
        requires
            x != 0,
            y != 0,
            z != 0,
        ensures
            final(self).transform@ == a3_compose(
                crate::affine::a3_scaling(x as int, y as int, z as int),
                old(self).transform@,
            ),
            final(self).inv_transform@ == a3_compose(
                old(self).inv_transform@,
                crate::affine::a3_scaling(
                    crate::fx::fx_div(FX_ONE as int, x as int),
                    crate::fx::fx_div(FX_ONE as int, y as int),
                    crate::fx::fx_div(FX_ONE as int, z as int),
                ),
            ),
            final(self).id == old(self).id,
            final(self).children == old(self).children,
            final(self).material == old(self).material,
            final(self).primitive == old(self).primitive,
    {
        let fwd = Affine::scaling(x, y, z);
        let inv = Affine::scaling_inverse(x, y, z);
        self.apply_transform(&fwd, &inv);
    }

    /// Translate the node.
    pub fn translate(&mut self, x: i64, y: i64, z: i64)
        requires
            x != i64::MIN,
            y != i64::MIN,
            z != i64::MIN,
        ensures
            final(self).transform@ == a3_compose(
                crate::affine::a3_translation(x as int, y as int, z as int),
                old(self).transform@,
            ),
            final(self).inv_transform@ == a3_compose(
                old(self).inv_transform@,
                crate::affine::a3_translation(-x as int, -y as int, -z as int),
            ),
            final(self).id == old(self).id,
            final(self).children == old(self).children,
            final(self).material == old(self).material,
            final(self).primitive == old(self).primitive,
    {
        let fwd = Affine::translation(x, y, z);
        let inv = Affine::translation(-x, -y, -z);
        self.apply_transform(&fwd, &inv);
    }

    /// Rotate the node about a principal axis by an angle in degrees; any
    /// other axis label is a data error the caller must rule out.
    pub fn rotate(&mut self, axis: &str, angle: i64)
        requires
            axis@.len() == 1,
            axis@[0] == 'x' || axis@[0] == 'X' || axis@[0] == 'y' || axis@[0] == 'Y'
                || axis@[0] == 'z' || axis@[0] == 'Z',
        ensures
            final(self).transform@ == a3_compose(
                rotation_about(axis@[0], angle as int),
                old(self).transform@,
            ),
            final(self).inv_transform@ == a3_compose(
                old(self).inv_transform@,
                rotation_about_inverse(axis@[0], angle as int),
            ),
            final(self).id == old(self).id,
            final(self).children == old(self).children,
            final(self).material == old(self).material,
            final(self).primitive == old(self).primitive,
    {
        let (fwd, inv) = rotation_pair(axis, angle);
        self.apply_transform(&fwd, &inv);
    }
}

/// Model of the rotation about a labelled axis.
pub open spec fn rotation_about(axis: char, angle: int) -> crate::affine::A3 {
    let c = cos_deg(angle);
    let s = sin_deg(angle);
    if axis == 'x' || axis == 'X' {
        crate::affine::a3_rotation_x(c, s)
    } else if axis == 'y' || axis == 'Y' {
        crate::affine::a3_rotation_y(c, s)
    } else {
        crate::affine::a3_rotation_z(c, s)
    }
}

/// Model of the inverse rotation: the same cosine with the sine negated.
pub open spec fn rotation_about_inverse(axis: char, angle: int) -> crate::affine::A3 {
    let c = cos_deg(angle);
    let s = sin_deg(angle);
    if axis == 'x' || axis == 'X' {
        crate::affine::a3_rotation_x(c, -s)
    } else if axis == 'y' || axis == 'Y' {
        crate::affine::a3_rotation_y(c, -s)
    } else {
        crate::affine::a3_rotation_z(c, -s)
    }
}

/// Build a rotation about a labelled axis together with its inverse.
pub fn rotation_pair(axis: &str, angle: i64) -> (r: (Affine, Affine))
    requires
        axis@.len() == 1,
    ensures
        r.0@ == rotation_about(axis@[0], angle as int),
        r.1@ == rotation_about_inverse(axis@[0], angle as int),
{
    let ch = axis.get_char(0);
    let c = cos_deg_e(angle);
    let s = sin_deg_e(angle);
    if ch == 'x' || ch == 'X' {
        (Affine::rotation_x(c, s), Affine::rotation_x(c, -s))
    } else if ch == 'y' || ch == 'Y' {
        (Affine::rotation_y(c, s), Affine::rotation_y(c, -s))
    } else {
        (Affine::rotation_z(c, s), Affine::rotation_z(c, -s))
    }
}

} // verus!
