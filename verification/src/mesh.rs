//! Triangle meshes with a precomputed axis-aligned bounding box.
//!
//! A mesh is a vertex list and a face list of vertex-index triples; its
//! well-formedness invariant is that every face index is in range, which
//! the constructor checks.  Intersection first rejects rays against the
//! bounding box, then tests every triangle and keeps the closest valid hit.

use vstd::prelude::*;
use crate::fx::{fx_min, fx_max, fx_sub, fx_sub_e, spec_abs, FX_ONE};
use crate::primitive::{aabb_collides, aabb_t_spec, hit_view, HitRecord, HitV};
use crate::ray::{Ray, RayV};
use crate::vec3::{v3_cross, v3_divs, v3_dot, v3_normalize, v3_sub, Vec3, V3};

verus! {

/// Smallest triangle determinant magnitude and ray parameter accepted.
pub const TRI_EPS: i64 = 1;

/// One triangular face: three indexes into the vertex list.
#[derive(Clone, Copy, Debug, PartialEq, Eq, Structural)]
pub struct Face {
    pub v0: usize,
    pub v1: usize,
    pub v2: usize,
}

/// Model of the Moeller-Trumbore test of a ray against one triangle:
/// degenerate triangles and back faces are rejected; the barycentric
/// coordinates must all be nonnegative; the parameter must be ahead of the
/// ray origin.
pub open spec fn triangle_hit_spec(r: RayV, t0: V3, t1: V3, t2: V3) -> Option<HitV> {
    let e1 = v3_sub(t1, t0);
    let e2 = v3_sub(t2, t0);
    let fnrm = v3_normalize(v3_cross(e1, e2));
    let q = v3_cross(r.dir, e2);
    let a = v3_dot(e1, q);
    if spec_abs(a) <= TRI_EPS as int || v3_dot(fnrm, r.dir) >= 0 {
        Option::None
    } else {
        let s = v3_divs(v3_sub(r.src, t0), a);
        let rr = v3_cross(s, e1);
        let x = v3_dot(s, q);
        let y = v3_dot(rr, r.dir);
        let z = fx_sub(fx_sub(FX_ONE as int, x), y);
        if x < 0 || y < 0 || z < 0 {
            Option::None
        } else {
            let t = v3_dot(e2, rr);
            if t < TRI_EPS as int {
                Option::None
            } else {
                Option::Some(HitV { t: t, normal: fnrm, u: 0, v: 0 })
            }
        }
    }
}

/// Moeller-Trumbore test of a ray against one triangle.
#[verifier::rlimit(100)]
pub fn triangle_collides(ray: &Ray, t0: &Vec3, t1: &Vec3, t2: &Vec3) -> (r: Option<HitRecord>)
    ensures
        hit_view(r) == triangle_hit_spec(ray@, t0@, t1@, t2@),
{
    let e1 = t1.sub(t0);
    let e2 = t2.sub(t0);
    let fnrm = e1.cross(&e2).normalize();
    let q = ray.dir.cross(&e2);
    let a = e1.dot(&q);
    if (-TRI_EPS <= a && a <= TRI_EPS) || fnrm.dot(&ray.dir) >= 0 {
        Option::None
    } else {
        let s = ray.src.sub(t0).div_scalar(a);
        let rr = s.cross(&e1);
        let x = s.dot(&q);
        let y = rr.dot(&ray.dir);
        let z = fx_sub_e(fx_sub_e(FX_ONE, x), y);
        if x < 0 || y < 0 || z < 0 {
            Option::None
        } else {
            let t = e2.dot(&rr);
            if t < TRI_EPS {
                Option::None
            } else {
                Option::Some(HitRecord { t_value: t, normal: fnrm, u_value: 0, v_value: 0 })
            }
        }
    }
}

/// A loaded triangle set with its bounding box.
#[derive(Clone, Debug)]
pub struct Mesh {
    pub vertices: Vec<Vec3>,
    pub faces: Vec<Face>,
    pub aabb_corner: Vec3,
    pub aabb_size: Vec3,
}

/// Every face of the mesh indexes real vertices.
pub open spec fn mesh_wf(m: Mesh) -> bool {
    forall|i: int|
        0 <= i < m.faces@.len() ==> {
            &&& #[trigger] m.faces@[i].v0 < m.vertices@.len()
            &&& m.faces@[i].v1 < m.vertices@.len()
            &&& m.faces@[i].v2 < m.vertices@.len()
        }
}

/// Model of the componentwise minimum over the first `n` vertices, starting
/// from the largest representable corner.
pub open spec fn bbox_min_spec(vs: Seq<Vec3>, n: int) -> V3
    decreases n,
{
    if n <= 0 {
        V3 { x: i64::MAX as int, y: i64::MAX as int, z: i64::MAX as int }
    } else {
        let p = bbox_min_spec(vs, n - 1);
        let v = vs[n - 1]@;
        V3 { x: fx_min(p.x, v.x), y: fx_min(p.y, v.y), z: fx_min(p.z, v.z) }
    }
}

/// Model of the componentwise maximum over the first `n` vertices, starting
/// from the smallest representable corner.
pub open spec fn bbox_max_spec(vs: Seq<Vec3>, n: int) -> V3
    decreases n,
{
    if n <= 0 {
        V3 { x: i64::MIN as int, y: i64::MIN as int, z: i64::MIN as int }
    } else {
        let p = bbox_max_spec(vs, n - 1);
        let v = vs[n - 1]@;
        V3 { x: fx_max(p.x, v.x), y: fx_max(p.y, v.y), z: fx_max(p.z, v.z) }
    }
}

/// Model of the best (closest accepted) triangle hit among the first `n`
/// faces; on an equal parameter the earlier face wins.
pub open spec fn mesh_best_hit(m: Mesh, r: RayV, n: int) -> Option<HitV>
    decreases n,
{
    if n <= 0 {
        Option::None
    } else {
        let prev = mesh_best_hit(m, r, n - 1);
        let f = m.faces@[n - 1];
        let cur = triangle_hit_spec(
            r,
            m.vertices@[f.v0 as int]@,
            m.vertices@[f.v1 as int]@,
            m.vertices@[f.v2 as int]@,
        );
        match (prev, cur) {
            (Option::None, c) => c,
            (p, Option::None) => p,
            (Option::Some(p), Option::Some(c)) => if c.t < p.t {
                Option::Some(c)
            } else {
                Option::Some(p)
            },
        }
    }
}

/// Model of the whole mesh intersection: the bounding box rejects first,
/// then the closest triangle hit wins.
pub open spec fn mesh_hit_spec(m: Mesh, r: RayV) -> Option<HitV> {
    if aabb_t_spec(r, m.aabb_corner@, m.aabb_size@) is None {
        Option::None
    } else {
        mesh_best_hit(m, r, m.faces@.len() as int)
    }
}

impl Mesh {
    /// Build a mesh from plain vertex and face lists, computing the bounding
    /// box; a face indexing a missing vertex is a data error and gives
    /// `None`.
    pub fn new(vertices: Vec<Vec3>, faces: Vec<Face>) -> (r: Option<Mesh>)
        ensures
            match r {
                Option::Some(m) => {
                    &&& mesh_wf(m)
                    &&& m.vertices@ == vertices@
                    &&& m.faces@ == faces@
                    &&& m.aabb_corner@ == bbox_min_spec(vertices@, vertices@.len() as int)
                    &&& m.aabb_size@ == v3_sub(
                        bbox_max_spec(vertices@, vertices@.len() as int),
                        bbox_min_spec(vertices@, vertices@.len() as int),
                    )
                },
                Option::None => exists|i: int|
                    0 <= i < faces@.len() && !{
                        &&& #[trigger] faces@[i].v0 < vertices@.len()
                        &&& faces@[i].v1 < vertices@.len()
                        &&& faces@[i].v2 < vertices@.len()
                    },
            },
    {
        let n = vertices.len();
        let mut i: usize = 0;
        while i < faces.len()
            invariant
                0 <= i <= faces@.len(),
                n == vertices@.len(),
                forall|j: int|
                    0 <= j < i ==> {
                        &&& #[trigger] faces@[j].v0 < vertices@.len()
                        &&& faces@[j].v1 < vertices@.len()
                        &&& faces@[j].v2 < vertices@.len()
                    },
            decreases faces@.len() - i,
        {
            let f = faces[i];
            if f.v0 >= n || f.v1 >= n || f.v2 >= n {
                return Option::None;
            }
            i = i + 1;
        }
        let mut lo = Vec3::new(i64::MAX, i64::MAX, i64::MAX);
        let mut hi = Vec3::new(i64::MIN, i64::MIN, i64::MIN);
        let mut k: usize = 0;
        while k < vertices.len()
            invariant
                0 <= k <= vertices@.len(),
                lo@ == bbox_min_spec(vertices@, k as int),
                hi@ == bbox_max_spec(vertices@, k as int),
            decreases vertices@.len() - k,
        {
            lo = lo.min_with(&vertices[k]);
            hi = hi.max_with(&vertices[k]);
            k = k + 1;
        }
        let size = hi.sub(&lo);
        Option::Some(Mesh { vertices, faces, aabb_corner: lo, aabb_size: size })
    }

    /// Intersection test: bounding-box rejection, then every triangle.
    pub fn collides(&self, ray: &Ray) -> (r: Option<HitRecord>)
        requires
            mesh_wf(*self),
        ensures
            hit_view(r) == mesh_hit_spec(*self, ray@),
    {
        match aabb_collides(ray, &self.aabb_corner, &self.aabb_size) {
            Option::None => Option::None,
            Option::Some(_) => {
                let mut best: Option<HitRecord> = Option::None;
                let mut i: usize = 0;
                while i < self.faces.len()
                    invariant
                        0 <= i <= self.faces@.len(),
                        mesh_wf(*self),
                        hit_view(best) == mesh_best_hit(*self, ray@, i as int),
                    decreases self.faces@.len() - i,
                {
                    let f = self.faces[i];
                    let cur = triangle_collides(
                        ray,
                        &self.vertices[f.v0],
                        &self.vertices[f.v1],
                        &self.vertices[f.v2],
                    );
                    best = match (best, cur) {
                        (Option::None, c) => c,
                        (p, Option::None) => p,
                        (Option::Some(p), Option::Some(c)) => if c.t_value < p.t_value {
                            Option::Some(c)
                        } else {
                            Option::Some(p)
                        },
                    };
                    i = i + 1;
                }
                best
            },
        }
    }
}

} // verus!
