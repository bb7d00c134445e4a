//! The raytracer: camera, per-pixel rays, background, and the render loop.
//!
//! Rendering is a pure fold over pixels: each pixel's color depends only on
//! the immutable scene and, for background pixels, on two random draws for
//! the star field.  The contracts therefore say: the returned buffer has
//! one 8-bit RGB triple per pixel, and each triple is the rounded image of
//! the traced color for that pixel under some pair of draws.  Persisting
//! the buffer and any parallel dispatch are collaborators' work.

use vstd::prelude::*;
use crate::color::{c3_clamp, channel_byte, Color, C3};
use crate::fx::{
    fx_add, fx_add_e, fx_div, fx_div_e, fx_divi, fx_max, fx_max_e, fx_mul, fx_mul_e, fx_muldiv,
    fx_sub, fx_sub_e, tdiv, FX_ONE,
};
use crate::intersection::{isect_view, IsectV};
use crate::light::{light_wf, Light};
use crate::material::material_color_spec;
use crate::node::{node_hit_spec, node_wf, Intersect, SceneNode};
use crate::ray::{Ray, RayV};
use crate::rng::random_u32;
use crate::trig::{tan_deg, tan_deg_e};
use crate::vec3::{v3_add, v3_cross, v3_normalize, v3_scale, v3_sub, Vec3, V3};
use crate::volume::{volumetric_apply_spec, VolumetricSolid};

verus! {

/// The near plane: camera rays leave along negative z in camera space.
pub const Z_NEAR: i64 = -65536;

/// The gradient's red rate (67/255).
pub const BG_R_RATE: i64 = 17219;

/// The gradient's green rate (133/255).
pub const BG_G_RATE: i64 = 34181;

/// Owns the scene root, camera, lights, ambient term and volumes, and
/// drives the per-pixel loop.
#[derive(Debug)]
pub struct Raytracer {
    pub root_node: SceneNode,
    pub eye: Vec3,
    pub view: Vec3,
    pub up: Vec3,
    pub fov_y: i64,
    pub ambient: Color,
    pub lights: Vec<Light>,
    pub volumes: Vec<VolumetricSolid>,
}

/// The scene tree and every light are well-formed.
pub open spec fn raytracer_wf(rt: Raytracer) -> bool {
    &&& node_wf(rt.root_node)
    &&& forall|i: int| 0 <= i < rt.lights@.len() ==> light_wf(#[trigger] rt.lights@[i])
}

impl Default for Raytracer {
    /// An empty scene: a bare root node, the camera at the origin looking
    /// down negative z, no lights, no volumes, black ambient.
    fn default() -> (rt: Raytracer)
        ensures
            raytracer_wf(rt),
            rt.root_node.children@.len() == 0,
            rt.eye@ == (V3 { x: 0, y: 0, z: 0 }),
            rt.view@ == (V3 { x: 0, y: 0, z: -(FX_ONE as int) }),
            rt.up@ == (V3 { x: 0, y: 0, z: 0 }),
            rt.fov_y == 30 * FX_ONE,
            rt.lights@.len() == 0,
            rt.volumes@.len() == 0,
    {
        Raytracer {
            root_node: SceneNode::new(0, String::new()),
            eye: Vec3::zero(),
            view: Vec3::new(0, 0, -FX_ONE),
            up: Vec3::zero(),
            fov_y: 30 * FX_ONE,
            ambient: Color::new(0, 0, 0),
            lights: Vec::new(),
            volumes: Vec::new(),
        }
    }
}

/// Model of the sky-gradient height rate for a pixel row.
pub open spec fn height_rate_spec(y: int, h: int) -> int {
    fx_max(fx_sub(fx_div(y * (FX_ONE as int), h * (FX_ONE as int)), 13107), 0)
}

/// Model of the background color: a vertical gradient, with a small chance
/// (shrinking with height) that the pixel is a gray star instead.  `d1`
/// decides whether a star appears, `d2` its gray level; both are draws in
/// `[0, FX_ONE)`.
pub open spec fn background_spec(y: int, h: int, d1: int, d2: int) -> C3 {
    let hr = height_rate_spec(y, h);
    let gradient = c3_clamp(
        C3 {
            r: fx_mul(BG_R_RATE as int, hr),
            g: fx_mul(BG_G_RATE as int, hr),
            b: fx_mul(FX_ONE as int, hr),
        },
    );
    if hr <= 22937 {
        let chance = if hr >= 3276 {
            fx_mul(fx_div(fx_sub(26214, hr), 22937), 196)
        } else {
            327
        };
        if d1 <= chance {
            let gray = 55 + tdiv(d2 * 200, FX_ONE as int);
            let value = tdiv(gray * (FX_ONE as int), 255);
            c3_clamp(C3 { r: value, g: value, b: value })
        } else {
            gradient
        }
    } else {
        gradient
    }
}

/// The background color for a pixel row: the gradient, or a star under a
/// random draw.
pub fn get_background_color(_x: u32, y: u32, _width: u32, height: u32) -> (c: Color)
    requires
        height >= 1,
    ensures
        exists|d1: int, d2: int|
            0 <= d1 < FX_ONE as int && 0 <= d2 < FX_ONE as int && c@ == background_spec(
                y as int,
                height as int,
                d1,
                d2,
            ),
{
    let hr = fx_max_e(fx_sub_e(fx_div_e((y as i64) * FX_ONE, (height as i64) * FX_ONE), 13107), 0);
    let d1: i64 = (random_u32() % 65536) as i64;
    let d2: i64 = (random_u32() % 65536) as i64;
    let gradient = Color::new(
        fx_mul_e(BG_R_RATE, hr),
        fx_mul_e(BG_G_RATE, hr),
        fx_mul_e(FX_ONE, hr),
    );
    let c = if hr <= 22937 {
        let chance = if hr >= 3276 {
            fx_mul_e(fx_div_e(fx_sub_e(26214, hr), 22937), 196)
        } else {
            327
        };
        if d1 <= chance {
            let gray: i64 = 55 + fx_divi(d2 * 200, FX_ONE);
            let value = fx_muldiv(gray, FX_ONE, 255);
            Color::new(value, value, value)
        } else {
            gradient
        }
    } else {
        gradient
    };
    proof {
        assert(c@ == background_spec(y as int, height as int, d1 as int, d2 as int));
    }
    c
}

/// Model of folding the first `n` volumetric solids over a color.
pub open spec fn volumes_fold(
    vols: Seq<VolumetricSolid>,
    n: int,
    r: RayV,
    ri: Option<IsectV>,
    c: C3,
) -> C3
    decreases n,
{
    if n <= 0 {
        c
    } else {
        volumetric_apply_spec(vols[n - 1], r, ri, volumes_fold(vols, n - 1, r, ri, c))
    }
}

/// Model of tracing one ray: the nearest scene hit is shaded by its
/// material (or the background stands in), then every volume is applied in
/// registration order.
#[verifier::opaque]
pub open spec fn trace_ray_spec(rt: Raytracer, r: RayV, y: int, h: int, d1: int, d2: int) -> C3 {
    let hit = node_hit_spec(rt.root_node, r);
    let base = match hit {
        Option::Some(c) => material_color_spec(c.material, rt, c),
        Option::None => background_spec(y, h, d1, d2),
    };
    volumes_fold(rt.volumes@, rt.volumes@.len() as int, r, hit, base)
}

/// Model of the camera ray for a pixel: the field of view fixes the image
/// plane's size, the pixel center picks a camera-space direction, and the
/// orthonormal look-at basis built from eye, view target and up carries it
/// to world space.
#[verifier::opaque]
pub open spec fn camera_ray_spec(rt: Raytracer, x: int, y: int, w: int, h: int) -> RayV {
    let side = fx_mul(-2 * FX_ONE as int, tan_deg(tdiv(rt.fov_y as int, 2)));
    let fw = w * (FX_ONE as int);
    let fh = h * (FX_ONE as int);
    let fx_p = x * (FX_ONE as int) + 32768;
    let fy_p = y * (FX_ONE as int) + 32768;
    let cx = fx_div(
        fx_mul(fx_mul(fx_mul(Z_NEAR as int, fx_sub(fx_div(fx_p, fw), 32768)), side), fw),
        fh,
    );
    let cy = fx_mul(fx_mul(Z_NEAR as int, fx_sub(0, fx_sub(fx_div(fy_p, fh), 32768))), side);
    let wz = v3_normalize(v3_sub(rt.eye@, rt.view@));
    let wx = v3_normalize(v3_cross(rt.up@, wz));
    let wy = v3_cross(wz, wx);
    let dir = v3_add(
        v3_add(v3_scale(wx, cx), v3_scale(wy, cy)),
        v3_scale(wz, Z_NEAR as int),
    );
    RayV { src: rt.eye@, dir: v3_normalize(dir) }
}

/// Model of one traced pixel.
#[verifier::opaque]
pub open spec fn trace_pixel_spec(rt: Raytracer, x: int, y: int, w: int, h: int, d1: int, d2: int) -> C3 {
    trace_ray_spec(rt, camera_ray_spec(rt, x, y, w, h), y, h, d1, d2)
}

/// The three bytes of pixel `p` (row-major) in `buf` are the rounded
/// channels of that pixel's traced color, under some pair of star draws.
pub open spec fn pixel_bytes_ok(rt: Raytracer, w: int, h: int, buf: Seq<u8>, p: int) -> bool {
    exists|d1: int, d2: int|
        #![trigger trace_pixel_spec(rt, p % w, p / w, w, h, d1, d2)]
        {
            let c = trace_pixel_spec(rt, p % w, p / w, w, h, d1, d2);
            &&& 0 <= d1 < FX_ONE as int
            &&& 0 <= d2 < FX_ONE as int
            &&& buf[3 * p] as int == channel_byte(c.r)
            &&& buf[3 * p + 1] as int == channel_byte(c.g)
            &&& buf[3 * p + 2] as int == channel_byte(c.b)
        }
}

impl Raytracer {
    /// Trace one ray: resolve, shade or fall back to the background, then
    /// apply the volumes.
    #[verifier::rlimit(100)]
    #[verifier::spinoff_prover]
    fn trace_ray(&self, ray: &Ray, y: u32, height: u32) -> (c: Color)
        requires
            raytracer_wf(*self),
            height >= 1,
        ensures
            exists|d1: int, d2: int|
                0 <= d1 < FX_ONE as int && 0 <= d2 < FX_ONE as int && c@ == trace_ray_spec(
                    *self,
                    ray@,
                    y as int,
                    height as int,
                    d1,
                    d2,
                ),
    {
        let collision = self.root_node.intersects(ray);
        let ghost hit = node_hit_spec(self.root_node, ray@);
        let mut color: Color;
        let ghost mut d1: int = 0;
        let ghost mut d2: int = 0;
        match &collision {
            Option::Some(c) => {
                proof {
                    crate::node::lemma_hit_material_wf(self.root_node, ray@);
                }
                color = c.material.get_color(ray, self, c);
            },
            Option::None => {
                color = get_background_color(0, y, 0, height);
                proof {
                    let (e1, e2) = choose|e1: int, e2: int|
                        0 <= e1 < FX_ONE as int && 0 <= e2 < FX_ONE as int && color@
                            == background_spec(y as int, height as int, e1, e2);
                    d1 = e1;
                    d2 = e2;
                }
            },
        }
        let ghost base = color@;
        let mut vi: usize = 0;
        while vi < self.volumes.len()
            invariant
                0 <= vi <= self.volumes@.len(),
                isect_view(collision) == hit,
                color@ == volumes_fold(self.volumes@, vi as int, ray@, hit, base),
            decreases self.volumes@.len() - vi,
        {
            color = self.volumes[vi].apply(ray, &collision, color);
            vi = vi + 1;
        }
        proof {
            reveal(trace_ray_spec);
            assert(0 <= d1 < FX_ONE as int && 0 <= d2 < FX_ONE as int);
            assert(color@ == trace_ray_spec(*self, ray@, y as int, height as int, d1, d2));
        }
        color
    }

    /// Build the primary camera ray for one pixel.
    #[verifier::rlimit(100)]
    #[verifier::spinoff_prover]
    fn camera_ray(&self, x: u32, y: u32, width: u32, height: u32) -> (ray: Ray)
        requires
            width >= 1,
            height >= 1,
        ensures
            ray@ == camera_ray_spec(*self, x as int, y as int, width as int, height as int),
    {
        let side = fx_mul_e(-2 * FX_ONE, tan_deg_e(fx_divi(self.fov_y, 2)));
        let fw = (width as i64) * FX_ONE;
        let fh = (height as i64) * FX_ONE;
        let fx_p = (x as i64) * FX_ONE + 32768;
        let fy_p = (y as i64) * FX_ONE + 32768;
        let cx = fx_div_e(
            fx_mul_e(fx_mul_e(fx_mul_e(Z_NEAR, fx_sub_e(fx_div_e(fx_p, fw), 32768)), side), fw),
            fh,
        );
        let cy = fx_mul_e(fx_mul_e(Z_NEAR, fx_sub_e(0, fx_sub_e(fx_div_e(fy_p, fh), 32768))), side);
        let wz = self.eye.sub(&self.view).normalize();
        let wx = self.up.cross(&wz).normalize();
        let wy = wz.cross(&wx);
        let dir = wx.scale(cx).add(&wy.scale(cy)).add(&wz.scale(Z_NEAR));
        let ray = Ray::new(self.eye, dir);
        proof {
            reveal(camera_ray_spec);
            let gw = width as int;
            let gh = height as int;
            let gside = fx_mul(-2 * FX_ONE as int, tan_deg(tdiv(self.fov_y as int, 2)));
            assert(side as int == gside);
            let gfx = (x as int) * (FX_ONE as int) + 32768;
            let gfy = (y as int) * (FX_ONE as int) + 32768;
            assert(fx_p as int == gfx && fy_p as int == gfy);
            let gcx = fx_div(
                fx_mul(
                    fx_mul(fx_mul(Z_NEAR as int, fx_sub(fx_div(gfx, gw * (FX_ONE as int)), 32768)), gside),
                    gw * (FX_ONE as int),
                ),
                gh * (FX_ONE as int),
            );
            let gcy = fx_mul(
                fx_mul(Z_NEAR as int, fx_sub(0, fx_sub(fx_div(gfy, gh * (FX_ONE as int)), 32768))),
                gside,
            );
            assert(cx as int == gcx);
            assert(cy as int == gcy);
            let gwz = v3_normalize(v3_sub(self.eye@, self.view@));
            let gwx = v3_normalize(v3_cross(self.up@, gwz));
            let gwy = v3_cross(gwz, gwx);
            assert(wz@ == gwz && wx@ == gwx && wy@ == gwy);
            let gdir = v3_add(
                v3_add(v3_scale(gwx, gcx), v3_scale(gwy, gcy)),
                v3_scale(gwz, Z_NEAR as int),
            );
            assert(dir@ == gdir);
            assert(ray@ == camera_ray_spec(*self, x as int, y as int, gw, gh));
        }
        ray
    }

    /// Trace the primary ray of one pixel.
    pub fn trace_pixel(&self, x: u32, y: u32, width: u32, height: u32) -> (c: Color)
        requires
            raytracer_wf(*self),
            width >= 1,
            height >= 1,
        ensures
            exists|d1: int, d2: int|
                0 <= d1 < FX_ONE as int && 0 <= d2 < FX_ONE as int && c@ == trace_pixel_spec(
                    *self,
                    x as int,
                    y as int,
                    width as int,
                    height as int,
                    d1,
                    d2,
                ),
    {
        let ray = self.camera_ray(x, y, width, height);
        let c = self.trace_ray(&ray, y, height);
        proof {
            reveal(trace_pixel_spec);
            let (d1, d2) = choose|d1: int, d2: int|
                0 <= d1 < FX_ONE as int && 0 <= d2 < FX_ONE as int && c@ == trace_ray_spec(
                    *self,
                    ray@,
                    y as int,
                    height as int,
                    d1,
                    d2,
                );
            assert(c@ == trace_pixel_spec(
                *self,
                x as int,
                y as int,
                width as int,
                height as int,
                d1,
                d2,
            ));
        }
        c
    }

    /// Render the scene into a `width * height` buffer of 8-bit RGB
    /// triples, row by row from the top.
    pub fn render(&self, width: u32, height: u32) -> (buf: Vec<u8>)
        requires
            raytracer_wf(*self),
            width >= 1,
            height >= 1,
        ensures
            buf@.len() == 3 * (width as int) * (height as int),
            forall|p: int|
                0 <= p < (width as int) * (height as int) ==> #[trigger] pixel_bytes_ok(
                    *self,
                    width as int,
                    height as int,
                    buf@,
                    p,
                ),
    {
        let mut buf: Vec<u8> = Vec::new();
        let mut y: u32 = 0;
        while y < height
            invariant
                raytracer_wf(*self),
                width >= 1,
                height >= 1,
                0 <= y <= height,
                buf@.len() == 3 * ((width as int) * (y as int)),
                forall|p: int|
                    0 <= p < (width as int) * (y as int) ==> #[trigger] pixel_bytes_ok(
                        *self,
                        width as int,
                        height as int,
                        buf@,
                        p,
                    ),
            decreases height - y,
        {
            let mut x: u32 = 0;
            while x < width
                invariant
                    raytracer_wf(*self),
                    width >= 1,
                    height >= 1,
                    0 <= y < height,
                    0 <= x <= width,
                    buf@.len() == 3 * ((width as int) * (y as int) + (x as int)),
                    forall|p: int|
                        0 <= p < (width as int) * (y as int) + (x as int) ==> #[trigger] pixel_bytes_ok(
                            *self,
                            width as int,
                            height as int,
                            buf@,
                            p,
                        ),
                decreases width - x,
            {
                let c = self.trace_pixel(x, y, width, height);
                let rgb = c.as_rgb();
                let ghost buf0 = buf@;
                let ghost w = width as int;
                let ghost h = height as int;
                let ghost pnew = w * (y as int) + (x as int);
                proof {
                    assert(pnew % w == x as int && pnew / w == y as int) by (nonlinear_arith)
                        requires
                            pnew == w * (y as int) + (x as int),
                            0 <= x as int && (x as int) < w,
                            0 <= y as int,
                            1 <= w;
                }
                buf.push(rgb[0]);
                buf.push(rgb[1]);
                buf.push(rgb[2]);
                proof {
                    assert forall|p: int| 0 <= p < w * (y as int) + (x as int) + 1 implies
                        pixel_bytes_ok(*self, w, h, buf@, p) by {
                        if p < pnew {
                            assert(pixel_bytes_ok(*self, w, h, buf0, p));
                            let (d1, d2) = choose|d1: int, d2: int|
                                #![trigger trace_pixel_spec(*self, p % w, p / w, w, h, d1, d2)]
                                {
                                    let cc = trace_pixel_spec(*self, p % w, p / w, w, h, d1, d2);
                                    &&& 0 <= d1 < FX_ONE as int
                                    &&& 0 <= d2 < FX_ONE as int
                                    &&& buf0[3 * p] as int == channel_byte(cc.r)
                                    &&& buf0[3 * p + 1] as int == channel_byte(cc.g)
                                    &&& buf0[3 * p + 2] as int == channel_byte(cc.b)
                                };
                            assert(buf@[3 * p] == buf0[3 * p]);
                            assert(buf@[3 * p + 1] == buf0[3 * p + 1]);
                            assert(buf@[3 * p + 2] == buf0[3 * p + 2]);
                            assert({
                                let cc = trace_pixel_spec(*self, p % w, p / w, w, h, d1, d2);
                                &&& 0 <= d1 < FX_ONE as int
                                &&& 0 <= d2 < FX_ONE as int
                                &&& buf@[3 * p] as int == channel_byte(cc.r)
                                &&& buf@[3 * p + 1] as int == channel_byte(cc.g)
                                &&& buf@[3 * p + 2] as int == channel_byte(cc.b)
                            });
                        } else {
                            let (d1, d2) = choose|d1: int, d2: int|
                                0 <= d1 < FX_ONE as int && 0 <= d2 < FX_ONE as int && c@
                                    == trace_pixel_spec(*self, x as int, y as int, w, h, d1, d2);
                            assert(buf@[3 * pnew] as int == channel_byte(
                                trace_pixel_spec(*self, pnew % w, pnew / w, w, h, d1, d2).r,
                            ));
                            assert(buf@[3 * pnew + 1] as int == channel_byte(
                                trace_pixel_spec(*self, pnew % w, pnew / w, w, h, d1, d2).g,
                            ));
                            assert(buf@[3 * pnew + 2] as int == channel_byte(
                                trace_pixel_spec(*self, pnew % w, pnew / w, w, h, d1, d2).b,
                            ));
                        }
                    }
                }
                x = x + 1;
            }
            proof {
                assert((width as int) * (y as int + 1) == (width as int) * (y as int) + (
                width as int)) by (nonlinear_arith);
            }
            y = y + 1;
        }
        proof {
            assert(3 * (width as int) * (height as int) == 3 * ((width as int) * (height as int)))
                by (nonlinear_arith);
        }
        buf
    }
}

} // verus!
