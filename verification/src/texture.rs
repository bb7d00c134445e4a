//! Textures: a grid of colors sampled by surface coordinates.
//!
//! Loading image files is a collaborator's task; a texture is built here
//! from plain values (its dimensions and pixel grid) and the library does
//! the wrap/tile arithmetic and nearest-pixel lookup.

use vstd::prelude::*;
use crate::color::Color;
use crate::fx::{fx_div, fx_div_e, fx_divi, fx_mul, fx_mul_e, spec_abs, tdiv, FX_ONE};

verus! {

/// A color grid addressed by normalized, tiled surface coordinates.
#[derive(Clone, Debug)]
pub struct Texture {
    pub width: usize,
    pub height: usize,
    pub pixels: Vec<Color>,
    pub u_max: i64,
    pub v_max: i64,
}

/// The grid is nonempty, the pixel list matches the dimensions, and the
/// tiling periods are positive.
pub open spec fn texture_wf(t: Texture) -> bool {
    &&& 1 <= t.width <= 65535
    &&& 1 <= t.height <= 65535
    &&& t.pixels@.len() == t.width * t.height
    &&& t.u_max > 0
    &&& t.v_max > 0
}

/// Model of the fractional part (toward zero) of a fixed-point scalar.
pub open spec fn fx_fract(v: int) -> int {
    v - tdiv(v, FX_ONE as int) * (FX_ONE as int)
}

/// Model of mapping a surface coordinate onto a pixel row or column:
/// the coordinate is divided by its period, wrapped into `[0, 1)` by taking
/// the magnitude of its fractional part, scaled by the last pixel index and
/// rounded to nearest.
pub open spec fn texel_index(coord: int, period: int, last: int) -> int {
    let wrapped = spec_abs(fx_fract(fx_div(coord, period)));
    tdiv(fx_mul(wrapped, last * (FX_ONE as int)) + 32768, FX_ONE as int)
}

/// Model of the whole texture lookup at tiled surface coordinates.
pub open spec fn texture_color_spec(t: Texture, u: int, v: int) -> Color {
    t.pixels@[
        texel_index(v, t.v_max as int, t.height as int - 1) * t.width
            + texel_index(u, t.u_max as int, t.width as int - 1)
    ]
}

impl Texture {
    /// Build a texture from plain values; mismatched dimensions or
    /// nonpositive tiling periods are data errors and give `None`.
    pub fn new(width: usize, height: usize, pixels: Vec<Color>, u_max: i64, v_max: i64) -> (r:
        Option<Texture>)
        ensures
            match r {
                Option::Some(t) => {
                    &&& texture_wf(t)
                    &&& t.width == width
                    &&& t.height == height
                    &&& t.pixels@ == pixels@
                    &&& t.u_max == u_max
                    &&& t.v_max == v_max
                },
                Option::None => !(1 <= width <= 65535 && 1 <= height <= 65535
                    && pixels@.len() == width * height && u_max > 0 && v_max > 0),
            },
    {
        if width >= 1 && width <= 65535 && height >= 1 && height <= 65535 && u_max > 0
            && v_max > 0 {
            assert((width as int) * (height as int) <= 4294836225) by (nonlinear_arith)
                requires
                    1 <= width <= 65535,
                    1 <= height <= 65535;
            let n: u64 = (width as u64) * (height as u64);
            if pixels.len() as u64 == n {
                Option::Some(Texture { width, height, pixels, u_max, v_max })
            } else {
                Option::None
            }
        } else {
            Option::None
        }
    }

    /// The color at tiled surface coordinates `(u, v)`.
    pub fn get_color(&self, u: i64, v: i64) -> (c: Color)
        requires
            texture_wf(*self),
        ensures
            c == texture_color_spec(*self, u as int, v as int),
    {
        let px = texel_index_e(u, self.u_max, self.width - 1);
        let py = texel_index_e(v, self.v_max, self.height - 1);
        assert((py as int) * (self.width as int) + (px as int) < self.pixels@.len()
            && self.pixels@.len() <= 4294836225) by (nonlinear_arith)
            requires
                0 <= px as int && (px as int) < self.width as int,
                0 <= py as int && (py as int) < self.height as int,
                1 <= self.width <= 65535,
                1 <= self.height <= 65535,
                self.pixels@.len() == (self.width as int) * (self.height as int);
        self.pixels[py * self.width + px]
    }
}

/// Map one surface coordinate onto a pixel index.
fn texel_index_e(coord: i64, period: i64, last: usize) -> (r: usize)
    requires
        period > 0,
        last < 4294967296,
    ensures
        r as int == texel_index(coord as int, period as int, last as int),
        0 <= r <= last,
{
    let q = fx_div_e(coord, period);
    let whole = fx_divi(q, FX_ONE);
    assert(spec_abs(whole as int) <= spec_abs(q as int) / FX_ONE as int);
    let frac = q - whole * FX_ONE;
    assert(frac as int == fx_fract(q as int));
    let wrapped = if frac < 0 { -frac } else { frac };
    assert(0 <= wrapped < FX_ONE);
    let lastf: i64 = (last as i64) * FX_ONE;
    let scaled = fx_mul_e(wrapped, lastf);
    assert(0 <= scaled as int <= (last as int) * (FX_ONE as int)) by (nonlinear_arith)
        requires
            scaled as int == crate::fx::fx_mul(wrapped as int, lastf as int),
            lastf as int == (last as int) * (FX_ONE as int),
            0 <= wrapped as int && (wrapped as int) < FX_ONE as int,
            0 <= last < 4294967296;
    let r = ((scaled + 32768) as u64) / 65536;
    assert(r as int == tdiv(scaled as int + 32768, FX_ONE as int));
    assert(0 <= r as int <= last as int);
    r as usize
}

} // verus!
