//! Point and area lights.
//!
//! A light has a color, a position, a three-coefficient distance falloff,
//! and, for soft shadows, a radius and a precomputed flat grid of sample
//! positions around the position (a single sample at the position itself
//! when the radius is zero or one sample is asked for).

use vstd::prelude::*;
use crate::color::{Color, C3};
use crate::fx::{fx_add, fx_div, fx_mul, fx_add_e, fx_div_e, fx_mul_e, is_sqrt, isqrt_u32, sqrt_floor, FX_ONE};
use crate::rng::random_u32;
use crate::vec3::{v3_add, Vec3, V3};

verus! {

/// A light source.
#[derive(Clone, Debug)]
pub struct Light {
    pub color: Color,
    pub position: Vec3,
    pub falloff: [i64; 3],
    pub radius: i64,
    pub num_samples: u32,
    pub light_samples: Vec<Vec3>,
}

/// The number of samples over which shadow fractions are formed is
/// positive, and the sample list is the one the position, radius and count
/// prescribe.
pub open spec fn light_wf(l: Light) -> bool {
    &&& l.num_samples >= 1
    &&& l.light_samples@.len() <= 4294967296
    &&& sample_layout_ok(l.position@, l.radius as int, l.num_samples as int, l.light_samples@)
}

/// The sample grid spacing: the diameter divided by the side length minus
/// one.
pub open spec fn sample_inc(radius: int, side: int) -> int {
    fx_div(fx_add(radius, radius), side * (FX_ONE as int))
}

/// The sample at grid cell `k` (row-major over a `side` by `side` grid):
/// the position offset by `-radius` plus the cell coordinates times the
/// spacing, in the x/y plane.
pub open spec fn sample_at(pos: V3, radius: int, side: int, k: int) -> V3 {
    let xi = k / side;
    let yi = k % side;
    let inc = sample_inc(radius, side - 1);
    v3_add(
        pos,
        V3 {
            x: fx_add(-radius, fx_mul(xi * (FX_ONE as int), inc)),
            y: fx_add(-radius, fx_mul(yi * (FX_ONE as int), inc)),
            z: 0,
        },
    )
}

/// The sample list a light must carry: one sample at the position for a
/// hard light, else a `side` by `side` grid where `side` is the integer
/// square root of the sample count.
pub open spec fn sample_layout_ok(pos: V3, radius: int, num_samples: int, samples: Seq<Vec3>) -> bool {
    if radius == 0 || num_samples == 1 {
        samples.len() == 1 && samples[0]@ == pos
    } else {
        let side = sqrt_floor(num_samples);
        &&& samples.len() == side * side
        &&& forall|k: int| 0 <= k < samples.len() ==> #[trigger] samples[k]@ == sample_at(pos, radius, side, k)
    }
}

/// Lay the sample grid out.
fn generate_light_samples(position: &Vec3, radius: i64, num_samples: u32) -> (r: Vec<Vec3>)
    requires
        radius >= 0,
        radius == 0 || num_samples == 1 || num_samples >= 4,
    ensures
        sample_layout_ok(position@, radius as int, num_samples as int, r@),
        r@.len() <= 4294967296,
{
    if radius == 0 || num_samples == 1 {
        let mut v: Vec<Vec3> = Vec::new();
        v.push(*position);
        v
    } else {
        let side = isqrt_u32(num_samples);
        proof {
            crate::fx::lemma_sqrt_floor_exists(num_samples as int);
            crate::fx::lemma_sqrt_unique(num_samples as int, side as int, sqrt_floor(num_samples as int));
            assert(side >= 2) by (nonlinear_arith)
                requires
                    is_sqrt(num_samples as int, side as int),
                    num_samples >= 4;
            assert(side < 65536) by (nonlinear_arith)
                requires
                    is_sqrt(num_samples as int, side as int),
                    (num_samples as int) < 4294967296;
        }
        let diameter = fx_add_e(radius, radius);
        let inc = fx_div_e(diameter, (side as i64 - 1) * FX_ONE);
        let mut samples: Vec<Vec3> = Vec::new();
        let mut x: u32 = 0;
        while x < side
            invariant
                radius >= 0,
                0 <= x <= side,
                2 <= side < 65536,
                side as int == sqrt_floor(num_samples as int),
                inc as int == sample_inc(radius as int, side as int - 1),
                samples@.len() == x * side,
                forall|k: int|
                    0 <= k < samples@.len() ==> #[trigger] samples@[k]@ == sample_at(
                        position@,
                        radius as int,
                        side as int,
                        k,
                    ),
            decreases side - x,
        {
            let mut y: u32 = 0;
            while y < side
                invariant
                    radius >= 0,
                    0 <= y <= side,
                    0 <= x < side,
                    2 <= side < 65536,
                    side as int == sqrt_floor(num_samples as int),
                    inc as int == sample_inc(radius as int, side as int - 1),
                    samples@.len() == x * side + y,
                    forall|k: int|
                        0 <= k < samples@.len() ==> #[trigger] samples@[k]@ == sample_at(
                            position@,
                            radius as int,
                            side as int,
                            k,
                        ),
                decreases side - y,
            {
                let dx = fx_add_e(-radius, fx_mul_e((x as i64) * FX_ONE, inc));
                let dy = fx_add_e(-radius, fx_mul_e((y as i64) * FX_ONE, inc));
                let s = position.add(&Vec3::new(dx, dy, 0));
                proof {
                    let k = samples@.len() as int;
                    assert(k == x * side + y);
                    assert(k / (side as int) == x as int && k % (side as int) == y as int)
                        by (nonlinear_arith)
                        requires
                            k == (x as int) * (side as int) + (y as int),
                            0 <= y as int && (y as int) < side as int,
                            0 <= x as int,
                            2 <= side as int;
                    assert(s@ == sample_at(position@, radius as int, side as int, k));
                }
                samples.push(s);
                y = y + 1;
            }
            proof {
                assert((x as int + 1) * (side as int) == (x as int) * (side as int) + side as int)
                    by (nonlinear_arith);
            }
            x = x + 1;
        }
        proof {
            assert((side as int) * (side as int) == samples@.len());
            assert((side as int) * (side as int) <= 4294967296) by (nonlinear_arith)
                requires
                    0 <= side as int && (side as int) < 65536;
        }
        samples
    }
}

impl Light {
    /// Build a light; the sample grid is laid out at once.  A soft light
    /// (nonzero radius) needs at least four samples so the grid has at
    /// least two rows and columns.
    pub fn new(color: Color, position: Vec3, falloff: [i64; 3], radius: i64, num_samples: u32) -> (l: Light)
        requires
            radius >= 0,
            num_samples >= 1,
            radius == 0 || num_samples == 1 || num_samples >= 4,
        ensures
            light_wf(l),
            l.color == color,
            l.position == position,
            l.falloff == falloff,
            l.radius == radius,
            l.num_samples == num_samples,
    {
        let light_samples = generate_light_samples(&position, radius, num_samples);
        Light { color, position, falloff, radius, num_samples, light_samples }
    }

    /// Change the softness parameters and lay the sample grid out anew.
    pub fn set_soft(&mut self, radius: i64, num_samples: u32)
        requires
            radius >= 0,
            num_samples >= 1,
            radius == 0 || num_samples == 1 || num_samples >= 4,
        ensures
            light_wf(*final(self)),
            final(self).color == old(self).color,
            final(self).position == old(self).position,
            final(self).falloff == old(self).falloff,
            final(self).radius == radius,
            final(self).num_samples == num_samples,
    {
        self.radius = radius;
        self.num_samples = num_samples;
        self.light_samples = generate_light_samples(&self.position, radius, num_samples);
    }

    /// A random point within one unit of the light position along each
    /// axis.  Whatever the draws, the offsets stay in `[-1, 1]`.
    pub fn get_random_point(&self) -> (p: Vec3)
        ensures
            exists|d: V3|
                {
                    &&& -(FX_ONE as int) <= d.x <= FX_ONE as int
                    &&& -(FX_ONE as int) <= d.y <= FX_ONE as int
                    &&& -(FX_ONE as int) <= d.z <= FX_ONE as int
                    &&& p@ == v3_add(self.position@, d)
                },
    {
        let dx = unit_offset(random_u32());
        let dy = unit_offset(random_u32());
        let dz = unit_offset(random_u32());
        let p = self.position.add(&Vec3::new(dx, dy, dz));
        proof {
            let d = V3 { x: dx as int, y: dy as int, z: dz as int };
            assert(p@ == v3_add(self.position@, d));
        }
        p
    }
}

/// Map a raw draw onto an offset in `[-FX_ONE, FX_ONE]`.
fn unit_offset(draw: u32) -> (r: i64)
    ensures
        -FX_ONE <= r <= FX_ONE,
{
    (draw % 131073) as i64 - FX_ONE
}

impl Default for Light {
    /// A hard white light at the origin with no falloff.
    fn default() -> (l: Light)
        ensures
            light_wf(l),
            l.color@ == (C3 { r: FX_ONE as int, g: FX_ONE as int, b: FX_ONE as int }),
            l.position@ == (V3 { x: 0, y: 0, z: 0 }),
            l.falloff[0] == FX_ONE && l.falloff[1] == 0 && l.falloff[2] == 0,
            l.radius == 0,
            l.num_samples == 1,
    {
        Light::new(
            Color::new(FX_ONE, FX_ONE, FX_ONE),
            Vec3::zero(),
            [FX_ONE, 0, 0],
            0,
            1,
        )
    }
}

} // verus!
