//! Surface materials: constant-color Phong, texture-sampled Phong, or
//! nothing.
//!
//! The shading computation itself lives with `Material::get_color` further
//! down this file; it needs the whole raytracer context (lights, ambient
//! term, scene root for shadow rays).

use vstd::prelude::*;
use crate::color::{c3_add, c3_div, c3_mul, c3_scale, Color, C3};
use crate::fx::{fx_add, fx_add_e, fx_clamp, fx_clamp_e, fx_mul, fx_mul_e, fx_muldiv, fx_pow, fx_pow_e, spec_abs, tdiv, FX_ONE};
use crate::intersection::{Intersection, IsectV};
use crate::light::Light;
use crate::node::{node_hit_spec, Intersect, SceneNode};
use crate::ray::{Ray, RayV};
use crate::raytrace::{raytracer_wf, Raytracer};
use crate::texture::{texture_color_spec, texture_wf, Texture};
use crate::vec3::{v3_dot, v3_norm, v3_normalize, v3_scale, v3_sub, Vec3, V3};

verus! {

/// A surface material.
#[derive(Clone, Debug)]
pub enum Material {
    PhongMaterial { kd: Color, ks: Color, shininess: u32 },
    PhongTexture { ks: Color, shininess: u32, texture: Texture },
    Empty,
}

/// A material's texture, when it carries one, is well-formed.
pub open spec fn material_wf(m: Material) -> bool {
    match m {
        Material::PhongTexture { texture, .. } => texture_wf(texture),
        _ => true,
    }
}

impl Material {
    /// A constant-color Phong material.
    pub fn phong(kd: Color, ks: Color, shininess: u32) -> (m: Material)
        ensures
            m == (Material::PhongMaterial { kd, ks, shininess }),
            material_wf(m),
    {
        Material::PhongMaterial { kd, ks, shininess }
    }

    /// A Phong material whose diffuse color is sampled from a texture.
    pub fn phong_texture(texture: Texture, ks: Color, shininess: u32) -> (m: Material)
        requires
            texture_wf(texture),
        ensures
            m == (Material::PhongTexture { ks, shininess, texture }),
            material_wf(m),
    {
        Material::PhongTexture { ks, shininess, texture }
    }

    /// The final surface color for a resolved hit, under the raytracer's
    /// lights, ambient term and scene (for shadow rays).
    pub fn get_color(&self, ray: &Ray, raytracer: &Raytracer, intersect: &Intersection) -> (c:
        Color)
        requires
            raytracer_wf(*raytracer),
            material_wf(*self),
        ensures
            c@ == material_color_spec(*self, *raytracer, intersect@),
    {
        match self {
            Material::PhongMaterial { kd, ks, shininess } => calculate_phong_lighting(
                kd,
                ks,
                *shininess,
                ray,
                raytracer,
                intersect,
            ),
            Material::PhongTexture { ks, shininess, texture } => {
                let kd = texture.get_color(intersect.u_value, intersect.v_value);
                calculate_phong_lighting(&kd, ks, *shininess, ray, raytracer, intersect)
            },
            Material::Empty => Color::new(0, 0, 0),
        }
    }
}

/// Model of a shadow ray from a surface point toward a light sample.
pub open spec fn shadow_ray_of(p: V3, s: V3) -> RayV {
    RayV { src: p, dir: v3_normalize(v3_sub(s, p)) }
}

/// A light sample is lit when the shadow ray toward it meets nothing.
pub open spec fn sample_lit(root: SceneNode, p: V3, s: V3) -> bool {
    node_hit_spec(root, shadow_ray_of(p, s)) is None
}

/// Model of the number of lit samples among the first `n`.
pub open spec fn count_lit(root: SceneNode, p: V3, samples: Seq<Vec3>, n: int) -> int
    decreases n,
{
    if n <= 0 {
        0
    } else {
        count_lit(root, p, samples, n - 1) + if sample_lit(root, p, samples[n - 1]@) {
            1int
        } else {
            0int
        }
    }
}

/// Model of the lit fraction: lit samples over the light's sample count,
/// in fixed point.
pub open spec fn shadow_fraction(hits: int, num_samples: int) -> int {
    tdiv(hits * (FX_ONE as int), num_samples)
}

/// Model of one light's contribution added onto an accumulated color: no
/// lit sample contributes nothing; otherwise the Phong diffuse and
/// specular terms, scaled by the light color, divided by the distance
/// falloff (a zero falloff contributes nothing), and weighted by the lit
/// fraction.
pub open spec fn light_term(
    light: Light,
    root: SceneNode,
    eye: V3,
    isect: IsectV,
    kd: C3,
    ks: C3,
    shin: nat,
    acc: C3,
) -> C3 {
    let p = isect.point;
    let nrm = v3_normalize(isect.normal);
    let view = v3_normalize(v3_sub(eye, p));
    let hits = count_lit(root, p, light.light_samples@, light.light_samples@.len() as int);
    if hits == 0 {
        acc
    } else {
        let mult = shadow_fraction(hits, light.num_samples as int);
        let l = v3_sub(light.position@, p);
        let l_norm = v3_norm(l);
        let lu = v3_normalize(l);
        let ldotn = fx_clamp(v3_dot(lu, nrm), 0, FX_ONE as int);
        let refl = v3_normalize(v3_sub(v3_scale(nrm, fx_add(ldotn, ldotn)), lu));
        let rdotv = fx_clamp(v3_dot(refl, view), 0, FX_ONE as int);
        let att = fx_add(
            light.falloff[0] as int,
            fx_add(
                fx_mul(light.falloff[1] as int, l_norm),
                fx_mul(fx_mul(light.falloff[2] as int, l_norm), l_norm),
            ),
        );
        let sum = c3_add(
            c3_mul(c3_scale(kd, ldotn), light.color@),
            c3_mul(c3_scale(ks, fx_pow(rdotv, shin)), light.color@),
        );
        if att == 0 {
            acc
        } else {
            c3_add(acc, c3_scale(c3_div(sum, att), mult))
        }
    }
}

/// Model of folding the first `n` lights' contributions over a base color.
pub open spec fn phong_fold(
    lights: Seq<Light>,
    n: int,
    root: SceneNode,
    eye: V3,
    isect: IsectV,
    kd: C3,
    ks: C3,
    shin: nat,
    base: C3,
) -> C3
    decreases n,
{
    if n <= 0 {
        base
    } else {
        light_term(
            lights[n - 1],
            root,
            eye,
            isect,
            kd,
            ks,
            shin,
            phong_fold(lights, n - 1, root, eye, isect, kd, ks, shin, base),
        )
    }
}

/// Model of the full Phong shading: the diffuse color times the ambient
/// term, plus every light's contribution.
pub open spec fn phong_spec(kd: C3, ks: C3, shin: nat, rt: Raytracer, isect: IsectV) -> C3 {
    phong_fold(
        rt.lights@,
        rt.lights@.len() as int,
        rt.root_node,
        rt.eye@,
        isect,
        kd,
        ks,
        shin,
        c3_mul(kd, rt.ambient@),
    )
}

/// Model of the color a material gives a resolved hit.
pub open spec fn material_color_spec(m: Material, rt: Raytracer, isect: IsectV) -> C3 {
    match m {
        Material::PhongMaterial { kd, ks, shininess } => phong_spec(
            kd@,
            ks@,
            shininess as nat,
            rt,
            isect,
        ),
        Material::PhongTexture { ks, shininess, texture } => phong_spec(
            texture_color_spec(texture, isect.u, isect.v)@,
            ks@,
            shininess as nat,
            rt,
            isect,
        ),
        Material::Empty => crate::color::c3_clamp(C3 { r: 0, g: 0, b: 0 }),
    }
}

/// Model of the number of blocked samples among the first `n`.
pub open spec fn count_blocked(root: SceneNode, p: V3, samples: Seq<Vec3>, n: int) -> int
    decreases n,
{
    if n <= 0 {
        0
    } else {
        count_blocked(root, p, samples, n - 1) + if sample_lit(root, p, samples[n - 1]@) {
            0int
        } else {
            1int
        }
    }
}

/// Lit and blocked samples partition the sample set: the lit count is the
/// total minus the blocked count, so the shadow fraction falls exactly in
/// proportion to the fraction of blocked samples.
pub proof fn lemma_lit_plus_blocked(root: SceneNode, p: V3, samples: Seq<Vec3>, n: int)
    requires
        0 <= n <= samples.len(),
    ensures
        count_lit(root, p, samples, n) + count_blocked(root, p, samples, n) == n,
        0 <= count_lit(root, p, samples, n) <= n,
    decreases n,
{
    if n > 0 {
        lemma_lit_plus_blocked(root, p, samples, n - 1);
    }
}

/// A light every one of whose samples has an unobstructed straight path to
/// the surface point yields the full shadow fraction: all samples count as
/// lit, and when the sample list is as long as the light's sample count
/// the lit fraction is exactly one.
pub proof fn lemma_unobstructed_full_fraction(root: SceneNode, p: V3, light: Light)
    requires
        light.num_samples >= 1,
        light.light_samples@.len() == light.num_samples as int,
        forall|k: int|
            0 <= k < light.light_samples@.len() ==> sample_lit(
                root,
                p,
                #[trigger] light.light_samples@[k]@,
            ),
    ensures
        count_lit(root, p, light.light_samples@, light.light_samples@.len() as int)
            == light.light_samples@.len() as int,
        shadow_fraction(light.light_samples@.len() as int, light.num_samples as int)
            == FX_ONE as int,
{
    lemma_count_all_lit(root, p, light.light_samples@, light.light_samples@.len() as int);
    let n = light.num_samples as int;
    assert(spec_abs(n * (FX_ONE as int)) / spec_abs(n) == FX_ONE as int) by (nonlinear_arith)
        requires
            n >= 1;
}

/// All samples among the first `n` lit means the lit count is `n`.
pub proof fn lemma_count_all_lit(root: SceneNode, p: V3, samples: Seq<Vec3>, n: int)
    requires
        0 <= n <= samples.len(),
        forall|k: int| 0 <= k < samples.len() ==> sample_lit(root, p, #[trigger] samples[k]@),
    ensures
        count_lit(root, p, samples, n) == n,
    decreases n,
{
    if n > 0 {
        lemma_count_all_lit(root, p, samples, n - 1);
    }
}

/// The shadow fraction never falls as the lit count grows.
pub proof fn lemma_shadow_fraction_monotone(h1: int, h2: int, num_samples: int)
    requires
        0 <= h1 <= h2,
        num_samples >= 1,
    ensures
        shadow_fraction(h1, num_samples) <= shadow_fraction(h2, num_samples),
{
    assert(h1 * (FX_ONE as int) <= h2 * (FX_ONE as int)) by (nonlinear_arith)
        requires
            0 <= h1 <= h2;
    assert((h1 * (FX_ONE as int)) / num_samples <= (h2 * (FX_ONE as int)) / num_samples)
        by (nonlinear_arith)
        requires
            0 <= h1 * (FX_ONE as int) <= h2 * (FX_ONE as int),
            num_samples >= 1;
}

/// The Phong shading computation shared by both material kinds.
#[verifier::rlimit(100)]
#[verifier::spinoff_prover]
fn calculate_phong_lighting(
    kd: &Color,
    ks: &Color,
    shininess: u32,
    _ray: &Ray,
    raytracer: &Raytracer,
    intersect: &Intersection,
) -> (c: Color)
    requires
        raytracer_wf(*raytracer),
    ensures
        c@ == phong_spec(kd@, ks@, shininess as nat, *raytracer, intersect@),
{
    let intersect_point = intersect.point;
    let n = intersect.normal.normalize();
    let v = raytracer.eye.sub(&intersect_point).normalize();

    let mut final_color = kd.mul(&raytracer.ambient);

    let mut li: usize = 0;
    while li < raytracer.lights.len()
        invariant
            0 <= li <= raytracer.lights@.len(),
            raytracer_wf(*raytracer),
            n@ == v3_normalize(intersect@.normal),
            v@ == v3_normalize(v3_sub(raytracer.eye@, intersect@.point)),
            intersect_point@ == intersect@.point,
            final_color@ == phong_fold(
                raytracer.lights@,
                li as int,
                raytracer.root_node,
                raytracer.eye@,
                intersect@,
                kd@,
                ks@,
                shininess as nat,
                crate::color::c3_mul(kd@, raytracer.ambient@),
            ),
        decreases raytracer.lights@.len() - li,
    {
        let light = &raytracer.lights[li];
        let mut shadow_rays_hit: u64 = 0;
        let mut si: usize = 0;
        while si < light.light_samples.len()
            invariant
                0 <= si <= light.light_samples@.len(),
                raytracer_wf(*raytracer),
                intersect_point@ == intersect@.point,
                *light == raytracer.lights@[li as int],
                0 <= li < raytracer.lights@.len(),
                shadow_rays_hit as int == count_lit(
                    raytracer.root_node,
                    intersect@.point,
                    light.light_samples@,
                    si as int,
                ),
                shadow_rays_hit as int <= si as int,
            decreases light.light_samples@.len() - si,
        {
            let shadow_ray = Ray::new_from_points(intersect_point, light.light_samples[si]);
            if raytracer.root_node.intersects(&shadow_ray).is_none() {
                shadow_rays_hit = shadow_rays_hit + 1;
            }
            si = si + 1;
        }
        if shadow_rays_hit != 0 {
            let shadow_multiplier = fx_muldiv(
                shadow_rays_hit as i64,
                FX_ONE,
                light.num_samples as i64,
            );
            let l = light.position.sub(&intersect_point);
            let l_norm = l.norm();
            let lu = l.normalize();
            let ldotn = fx_clamp_e(lu.dot(&n), 0, FX_ONE);
            let refl = n.scale(fx_add_e(ldotn, ldotn)).sub(&lu).normalize();
            let rdotv = fx_clamp_e(refl.dot(&v), 0, FX_ONE);
            let attenuation = fx_add_e(
                light.falloff[0],
                fx_add_e(
                    fx_mul_e(light.falloff[1], l_norm),
                    fx_mul_e(fx_mul_e(light.falloff[2], l_norm), l_norm),
                ),
            );
            let light_sum = kd.scale(ldotn).mul(&light.color).add(
                &ks.scale(fx_pow_e(rdotv, shininess)).mul(&light.color),
            );
            if attenuation != 0 {
                final_color = final_color.add(&light_sum.div(attenuation).scale(shadow_multiplier));
            }
        }
        li = li + 1;
    }
    final_color
}

} // verus!
