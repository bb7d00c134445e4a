//! Volumetric pass-through effects layered over surface shading.
//!
//! A volumetric solid pairs a shape (an axis-aligned box, or a cone posed
//! by its own transform) with an effect on the color along the ray's path:
//! fog blends toward the fog color with traveled distance, light brightens
//! additively up to a cap, solid replaces the color outright.
//!
//! The ray's surface hit and the volume's entry are compared along the ray
//! parameter; for the cone, whose roots come out in its local frame, the
//! world parameters are recovered by projecting the world-space entry and
//! exit points onto the (unit) ray direction.

use vstd::prelude::*;
use crate::affine::{a3_apply_point, a3_compose, Affine};
use crate::color::{c3_add, c3_scale, Color, C3};
use crate::fx::{
    fx_add, fx_add_e, fx_clamp, fx_clamp_e, fx_max, fx_max_e, fx_min, fx_min_e, fx_mul, fx_mul_e,
    fx_sub, fx_sub_e, FX_ONE,
};
use crate::intersection::{isect_view, Intersection, IsectV};
use crate::primitive::{aabb_roots_spec, aabb_collision, find_roots_quadratic, quadratic_roots, Roots, RootsV};
use crate::ray::{ray_at, ray_transform, Ray, RayV};
use crate::trig::{cos_deg, cos_deg_e, sin_deg, sin_deg_e};
use crate::vec3::{v3_dist, v3_dot, v3_sub, Vec3, V3};

verus! {

/// Fog density: blend factor gained per unit of traveled distance.
pub const FOG_DENSITY: i64 = 1966;

/// The traveled distance at which the fog blend factor saturates at one.
pub const FOG_SAT_DIST: i64 = 2184623;

/// Glow density: brightening gained per unit of traveled distance.
pub const LIGHT_DENSITY: i64 = 13107;

/// The cap on the glow brightening.
pub const LIGHT_CAP: i64 = 45875;

/// The cone volume's height clip.
pub const CONE_CLIP: i64 = 196608;

/// An axis-aligned box volume: low corner and size.
#[derive(Clone, Copy, Debug, PartialEq, Eq, Structural)]
pub struct BoxParams {
    pub pos: Vec3,
    pub size: Vec3,
}

/// A cone volume posed by a transform composed from a scaling, rotations
/// about the three axes, and a translation; the inverse map is kept in
/// step.
#[derive(Clone, Copy, Debug)]
pub struct ConeParams {
    pub pos: Vec3,
    pub scale_y: i64,
    pub rot_x: i64,
    pub rot_y: i64,
    pub rot_z: i64,
    pub transform: Affine,
    pub inv_transform: Affine,
}

/// Model of the cone's forward pose: a scaling along y, rotations about
/// x, y and z in that order, then the translation to its position.
pub open spec fn cone_pose(pos: V3, scale_y: int, rot_x: int, rot_y: int, rot_z: int) -> crate::affine::A3 {
    a3_compose(
        crate::affine::a3_translation(pos.x, pos.y, pos.z),
        a3_compose(
            crate::affine::a3_rotation_z(cos_deg(rot_z), sin_deg(rot_z)),
            a3_compose(
                crate::affine::a3_rotation_y(cos_deg(rot_y), sin_deg(rot_y)),
                a3_compose(
                    crate::affine::a3_rotation_x(cos_deg(rot_x), sin_deg(rot_x)),
                    a3_compose(
                        crate::affine::a3_scaling(FX_ONE as int, scale_y, FX_ONE as int),
                        crate::affine::a3_identity(),
                    ),
                ),
            ),
        ),
    )
}

/// Model of the cone's inverse pose: the elementary inverses composed in
/// the reverse order.
pub open spec fn cone_pose_inverse(pos: V3, scale_y: int, rot_x: int, rot_y: int, rot_z: int) -> crate::affine::A3 {
    a3_compose(
        a3_compose(
            a3_compose(
                a3_compose(
                    a3_compose(
                        crate::affine::a3_identity(),
                        crate::affine::a3_scaling(
                            FX_ONE as int,
                            crate::fx::fx_div(FX_ONE as int, scale_y),
                            FX_ONE as int,
                        ),
                    ),
                    crate::affine::a3_rotation_x(cos_deg(rot_x), -sin_deg(rot_x)),
                ),
                crate::affine::a3_rotation_y(cos_deg(rot_y), -sin_deg(rot_y)),
            ),
            crate::affine::a3_rotation_z(cos_deg(rot_z), -sin_deg(rot_z)),
        ),
        crate::affine::a3_translation(-pos.x, -pos.y, -pos.z),
    )
}

impl ConeParams {
    /// Pose a cone volume from its position, vertical scale and rotation
    /// angles (degrees); a zero vertical scale has no inverse and is a
    /// data error the caller must rule out.
    #[verifier::rlimit(100)]
    #[verifier::spinoff_prover]
    pub fn new(pos: Vec3, scale_y: i64, rot_x: i64, rot_y: i64, rot_z: i64) -> (r: ConeParams)
        requires
            scale_y != 0,
            pos.x != i64::MIN,
            pos.y != i64::MIN,
            pos.z != i64::MIN,
        ensures
            r.pos == pos,
            r.scale_y == scale_y,
            r.rot_x == rot_x,
            r.rot_y == rot_y,
            r.rot_z == rot_z,
            r.transform@ == cone_pose(pos@, scale_y as int, rot_x as int, rot_y as int, rot_z as int),
            r.inv_transform@ == cone_pose_inverse(pos@, scale_y as int, rot_x as int, rot_y as int, rot_z as int),
    {
        let cx = cos_deg_e(rot_x);
        let sx = sin_deg_e(rot_x);
        let cy = cos_deg_e(rot_y);
        let sy = sin_deg_e(rot_y);
        let cz = cos_deg_e(rot_z);
        let sz = sin_deg_e(rot_z);
        let f0 = Affine::scaling(FX_ONE, scale_y, FX_ONE).compose(&Affine::identity());
        let f1 = Affine::rotation_x(cx, sx).compose(&f0);
        let f2 = Affine::rotation_y(cy, sy).compose(&f1);
        let f3 = Affine::rotation_z(cz, sz).compose(&f2);
        let fwd = Affine::translation(pos.x, pos.y, pos.z).compose(&f3);
        let g0 = Affine::identity().compose(
            &Affine::scaling(FX_ONE, crate::fx::fx_div_e(FX_ONE, scale_y), FX_ONE),
        );
        let g1 = g0.compose(&Affine::rotation_x(cx, -sx));
        let g2 = g1.compose(&Affine::rotation_y(cy, -sy));
        let g3 = g2.compose(&Affine::rotation_z(cz, -sz));
        let inv = g3.compose(&Affine::translation(-pos.x, -pos.y, -pos.z));
        ConeParams { pos, scale_y, rot_x, rot_y, rot_z, transform: fwd, inv_transform: inv }
    }
}

/// A shape a ray can pass through.
#[derive(Clone, Copy, Debug)]
pub enum Volume {
    Cuboid(BoxParams),
    Cone(ConeParams),
}

/// An effect on the color along a ray's path through a volume.
#[derive(Clone, Copy, Debug)]
pub enum VolumeEffect {
    Fog(Color),
    Light(Color),
    Solid(Color),
    Pass,
}

/// A shape paired with an effect.
#[derive(Clone, Copy, Debug)]
pub struct VolumetricSolid {
    pub volume: Volume,
    pub effect: VolumeEffect,
}

/// Where a ray passed through a volume: entry and exit parameters along
/// the world ray, and the world-space entry and exit points.
#[derive(Clone, Copy, Debug)]
pub struct VolumeIntersection {
    pub t_enter: i64,
    pub t_leave: i64,
    pub i_1: Vec3,
    pub i_2: Vec3,
}

/// The mathematical value of a `VolumeIntersection`.
pub ghost struct VolIsectV {
    pub t_enter: int,
    pub t_leave: int,
    pub i_1: V3,
    pub i_2: V3,
}

impl View for VolumeIntersection {
    type V = VolIsectV;

    open spec fn view(&self) -> VolIsectV {
        VolIsectV { t_enter: self.t_enter as int, t_leave: self.t_leave as int, i_1: self.i_1@, i_2: self.i_2@ }
    }
}

/// The view of an optional volume intersection.
pub open spec fn vol_isect_view(o: Option<VolumeIntersection>) -> Option<VolIsectV> {
    match o {
        Option::Some(v) => Option::Some(v@),
        Option::None => Option::None,
    }
}

/// Model of a ray passing through a box volume: two slab roots give entry
/// and exit; one root means the origin is inside, entering at parameter
/// zero.
pub open spec fn box_passes_spec(b: BoxParams, r: RayV) -> Option<VolIsectV> {
    match aabb_roots_spec(r, b.pos@, b.size@) {
        RootsV::Two(t1, t2) => Option::Some(
            VolIsectV { t_enter: t1, t_leave: t2, i_1: ray_at(r, t1), i_2: ray_at(r, t2) },
        ),
        RootsV::One(t1) => Option::Some(
            VolIsectV { t_enter: 0, t_leave: t1, i_1: r.src, i_2: ray_at(r, t1) },
        ),
        RootsV::No => Option::None,
    }
}

/// Model of a ray passing through a cone volume: the ray is carried into
/// the cone's frame, the cone quadratic must give two roots, and the entry
/// point's height must lie within the clip; entry and exit are carried
/// back to world space and their parameters recovered by projection onto
/// the ray direction.
pub open spec fn cone_passes_spec(c: ConeParams, r: RayV) -> Option<VolIsectV> {
    let tr = ray_transform(c.inv_transform@, r);
    let a = fx_sub(fx_add(fx_mul(tr.dir.x, tr.dir.x), fx_mul(tr.dir.z, tr.dir.z)), fx_mul(tr.dir.y, tr.dir.y));
    let m = fx_sub(fx_add(fx_mul(tr.src.x, tr.dir.x), fx_mul(tr.src.z, tr.dir.z)), fx_mul(tr.src.y, tr.dir.y));
    let b = fx_add(m, m);
    let cc = fx_sub(fx_add(fx_mul(tr.src.x, tr.src.x), fx_mul(tr.src.z, tr.src.z)), fx_mul(tr.src.y, tr.src.y));
    match quadratic_roots(a, b, cc) {
        RootsV::Two(r1, r2) => {
            let i1 = ray_at(tr, r1);
            if 0 <= i1.y <= CONE_CLIP as int {
                let i2 = ray_at(tr, r2);
                let w1 = a3_apply_point(c.transform@, i1);
                let w2 = a3_apply_point(c.transform@, i2);
                Option::Some(VolIsectV {
                    t_enter: v3_dot(v3_sub(w1, r.src), r.dir),
                    t_leave: v3_dot(v3_sub(w2, r.src), r.dir),
                    i_1: w1,
                    i_2: w2,
                })
            } else {
                Option::None
            }
        },
        _ => Option::None,
    }
}

/// Model of a ray passing through either volume shape.
pub open spec fn volume_passes_spec(v: Volume, r: RayV) -> Option<VolIsectV> {
    match v {
        Volume::Cuboid(b) => box_passes_spec(b, r),
        Volume::Cone(c) => cone_passes_spec(c, r),
    }
}

/// Model of the fog blend factor for a traveled distance.
pub open spec fn fog_amount_of(d: int) -> int {
    fx_clamp(fx_mul(d, FOG_DENSITY as int), 0, FX_ONE as int)
}

/// Model of the surface-hit parameter along the ray: the hit point
/// projected onto the (unit) direction.
pub open spec fn surface_t(r: RayV, i: IsectV) -> int {
    v3_dot(v3_sub(i.point, r.src), r.dir)
}

/// Model of the fog effect: the color is blended toward the fog color by a
/// factor proportional to the distance traveled inside the volume (clipped
/// to the earlier of the volume's exit and the surface hit), saturating at
/// full fog; a surface hit before the entry leaves the color unchanged.
pub open spec fn fog_apply_spec(fog: C3, r: RayV, ri: Option<IsectV>, vi: VolIsectV, curr: C3) -> C3 {
    let enter = fx_max(vi.t_enter, 0);
    match ri {
        Option::Some(x) => {
            let t_int = surface_t(r, x);
            if enter >= t_int {
                curr
            } else {
                let d = if vi.t_leave < t_int {
                    v3_dist(ray_at(r, enter), ray_at(r, vi.t_leave))
                } else {
                    v3_dist(ray_at(r, enter), x.point)
                };
                fog_blend(fog, curr, fog_amount_of(d))
            }
        },
        Option::None => {
            let d = v3_dist(ray_at(r, enter), ray_at(r, vi.t_leave));
            fog_blend(fog, curr, fog_amount_of(d))
        },
    }
}

/// Model of blending the current color toward the fog color.
pub open spec fn fog_blend(fog: C3, curr: C3, amount: int) -> C3 {
    c3_add(c3_scale(fog, amount), c3_scale(curr, fx_sub(FX_ONE as int, amount)))
}

/// Model of the glow intensity for a traveled distance.
pub open spec fn glow_intensity_of(d: int) -> int {
    fx_min(fx_max(fx_mul(d, LIGHT_DENSITY as int), 0), LIGHT_CAP as int)
}

/// Model of the glow effect: the color is brightened additively by an
/// intensity proportional to the distance traveled inside the volume,
/// capped; a surface hit before the entry leaves the color unchanged.
pub open spec fn light_apply_spec(light: C3, r: RayV, ri: Option<IsectV>, vi: VolIsectV, curr: C3) -> C3 {
    match ri {
        Option::Some(x) => {
            let t_int = surface_t(r, x);
            if vi.t_enter >= t_int {
                curr
            } else {
                let d = if vi.t_leave < t_int {
                    v3_dist(vi.i_1, vi.i_2)
                } else {
                    v3_dist(vi.i_1, x.point)
                };
                c3_add(curr, c3_scale(light, glow_intensity_of(d)))
            }
        },
        Option::None => {
            let d = v3_dist(vi.i_1, vi.i_2);
            c3_add(curr, c3_scale(light, glow_intensity_of(d)))
        },
    }
}

/// Model of applying an effect to the color.
pub open spec fn effect_apply_spec(e: VolumeEffect, r: RayV, ri: Option<IsectV>, vi: VolIsectV, curr: C3) -> C3 {
    match e {
        VolumeEffect::Fog(c) => fog_apply_spec(c@, r, ri, vi, curr),
        VolumeEffect::Light(c) => light_apply_spec(c@, r, ri, vi, curr),
        VolumeEffect::Solid(c) => c@,
        VolumeEffect::Pass => curr,
    }
}

/// Model of one volumetric solid's action on the color.
pub open spec fn volumetric_apply_spec(vs: VolumetricSolid, r: RayV, ri: Option<IsectV>, curr: C3) -> C3 {
    match volume_passes_spec(vs.volume, r) {
        Option::Some(vi) => effect_apply_spec(vs.effect, r, ri, vi, curr),
        Option::None => curr,
    }
}

/// A ray passing through a box volume.
fn box_passes_through(b: &BoxParams, ray: &Ray) -> (r: Option<VolumeIntersection>)
    ensures
        vol_isect_view(r) == box_passes_spec(*b, ray@),
{
    match aabb_collision(ray, &b.pos, &b.size) {
        Roots::Two(t1, t2) => Option::Some(VolumeIntersection {
            t_enter: t1,
            t_leave: t2,
            i_1: ray.at(t1),
            i_2: ray.at(t2),
        }),
        Roots::One(t1) => Option::Some(VolumeIntersection {
            t_enter: 0,
            t_leave: t1,
            i_1: ray.src,
            i_2: ray.at(t1),
        }),
        Roots::No => Option::None,
    }
}

/// A ray passing through a cone volume.
fn cone_passes_through(c: &ConeParams, ray: &Ray) -> (r: Option<VolumeIntersection>)
    ensures
        vol_isect_view(r) == cone_passes_spec(*c, ray@),
{
    let tr = ray.transform(&c.inv_transform);
    let a = fx_sub_e(
        fx_add_e(fx_mul_e(tr.dir.x, tr.dir.x), fx_mul_e(tr.dir.z, tr.dir.z)),
        fx_mul_e(tr.dir.y, tr.dir.y),
    );
    let m = fx_sub_e(
        fx_add_e(fx_mul_e(tr.src.x, tr.dir.x), fx_mul_e(tr.src.z, tr.dir.z)),
        fx_mul_e(tr.src.y, tr.dir.y),
    );
    let b = fx_add_e(m, m);
    let cc = fx_sub_e(
        fx_add_e(fx_mul_e(tr.src.x, tr.src.x), fx_mul_e(tr.src.z, tr.src.z)),
        fx_mul_e(tr.src.y, tr.src.y),
    );
    match find_roots_quadratic(a, b, cc) {
        Roots::Two(r1, r2) => {
            let i1 = tr.at(r1);
            if 0 <= i1.y && i1.y <= CONE_CLIP {
                let i2 = tr.at(r2);
                let w1 = c.transform.apply_point(&i1);
                let w2 = c.transform.apply_point(&i2);
                Option::Some(VolumeIntersection {
                    t_enter: w1.sub(&ray.src).dot(&ray.dir),
                    t_leave: w2.sub(&ray.src).dot(&ray.dir),
                    i_1: w1,
                    i_2: w2,
                })
            } else {
                Option::None
            }
        },
        _ => Option::None,
    }
}

impl Volume {
    /// Where the ray passes through this volume, if it does.
    fn passes_through(&self, ray: &Ray) -> (r: Option<VolumeIntersection>)
        ensures
            vol_isect_view(r) == volume_passes_spec(*self, ray@),
    {
        match self {
            Volume::Cuboid(b) => box_passes_through(b, ray),
            Volume::Cone(c) => cone_passes_through(c, ray),
        }
    }
}

/// The fog effect.
fn fog_apply(fog_color: Color, ray: &Ray, ri: &Option<Intersection>, vi: &VolumeIntersection, curr_color: Color) -> (r: Color)
    ensures
        r@ == fog_apply_spec(fog_color@, ray@, isect_view(*ri), vi@, curr_color@),
{
    let enter = fx_max_e(vi.t_enter, 0);
    match ri {
        Option::Some(x) => {
            let t_int = x.point.sub(&ray.src).dot(&ray.dir);
            if enter >= t_int {
                curr_color
            } else {
                let d = if vi.t_leave < t_int {
                    ray.at(enter).dist(&ray.at(vi.t_leave))
                } else {
                    ray.at(enter).dist(&x.point)
                };
                let amount = fx_clamp_e(fx_mul_e(d, FOG_DENSITY), 0, FX_ONE);
                fog_color.scale(amount).add(&curr_color.scale(fx_sub_e(FX_ONE, amount)))
            }
        },
        Option::None => {
            let d = ray.at(enter).dist(&ray.at(vi.t_leave));
            let amount = fx_clamp_e(fx_mul_e(d, FOG_DENSITY), 0, FX_ONE);
            fog_color.scale(amount).add(&curr_color.scale(fx_sub_e(FX_ONE, amount)))
        },
    }
}

/// The glow effect.
fn light_apply(light_color: Color, ray: &Ray, ri: &Option<Intersection>, vi: &VolumeIntersection, curr_color: Color) -> (r: Color)
    ensures
        r@ == light_apply_spec(light_color@, ray@, isect_view(*ri), vi@, curr_color@),
{
    match ri {
        Option::Some(x) => {
            let t_int = x.point.sub(&ray.src).dot(&ray.dir);
            if vi.t_enter >= t_int {
                curr_color
            } else {
                let d = if vi.t_leave < t_int {
                    vi.i_1.dist(&vi.i_2)
                } else {
                    vi.i_1.dist(&x.point)
                };
                let intensity = fx_min_e(fx_max_e(fx_mul_e(d, LIGHT_DENSITY), 0), LIGHT_CAP);
                curr_color.add(&light_color.scale(intensity))
            }
        },
        Option::None => {
            let d = vi.i_1.dist(&vi.i_2);
            let intensity = fx_min_e(fx_max_e(fx_mul_e(d, LIGHT_DENSITY), 0), LIGHT_CAP);
            curr_color.add(&light_color.scale(intensity))
        },
    }
}

impl VolumeEffect {
    /// Apply this effect to the color.
    fn apply(&self, ray: &Ray, ri: &Option<Intersection>, vi: &VolumeIntersection, curr_color: Color) -> (r: Color)
        ensures
            r@ == effect_apply_spec(*self, ray@, isect_view(*ri), vi@, curr_color@),
    {
        match self {
            VolumeEffect::Fog(color) => fog_apply(*color, ray, ri, vi, curr_color),
            VolumeEffect::Light(color) => light_apply(*color, ray, ri, vi, curr_color),
            VolumeEffect::Solid(color) => *color,
            VolumeEffect::Pass => curr_color,
        }
    }
}

impl VolumetricSolid {
    /// Pair a shape with an effect.
    pub fn new(volume: Volume, effect: VolumeEffect) -> (r: VolumetricSolid)
        ensures
            r.volume == volume,
            r.effect == effect,
    {
        VolumetricSolid { volume, effect }
    }

    /// Apply this solid to the color of one ray, given the ray's surface
    /// hit if any.
    pub fn apply(&self, ray: &Ray, ri: &Option<Intersection>, curr_color: Color) -> (r: Color)
        ensures
            r@ == volumetric_apply_spec(*self, ray@, isect_view(*ri), curr_color@),
    {
        match self.volume.passes_through(ray) {
            Option::Some(intersection) => self.effect.apply(ray, ri, &intersection, curr_color),
            Option::None => curr_color,
        }
    }
}

/// The fog blend factor never falls as the traveled distance grows.
pub proof fn lemma_fog_monotone(d1: int, d2: int)
    requires
        0 <= d1 <= d2,
    ensures
        fog_amount_of(d1) <= fog_amount_of(d2),
{
    assert(d1 * (FOG_DENSITY as int) <= d2 * (FOG_DENSITY as int)) by (nonlinear_arith)
        requires
            0 <= d1 <= d2;
    assert(crate::fx::tdiv(d1 * (FOG_DENSITY as int), FX_ONE as int) <= crate::fx::tdiv(
        d2 * (FOG_DENSITY as int),
        FX_ONE as int,
    )) by (nonlinear_arith)
        requires
            0 <= d1 * (FOG_DENSITY as int) <= d2 * (FOG_DENSITY as int);
}

/// Beyond `FOG_SAT_DIST` the fog blend factor saturates at one.
pub proof fn lemma_fog_saturates(d: int)
    requires
        d >= FOG_SAT_DIST as int,
    ensures
        fog_amount_of(d) == FX_ONE as int,
{
    assert(d * (FOG_DENSITY as int) >= 4294967296) by (nonlinear_arith)
        requires
            d >= 2184623;
    assert(crate::fx::tdiv(d * (FOG_DENSITY as int), FX_ONE as int) >= FX_ONE as int)
        by (nonlinear_arith)
        requires
            d * (FOG_DENSITY as int) >= 4294967296;
}

} // verus!
