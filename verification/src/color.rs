//! Colors with three fixed-point channels.
//!
//! Every constructor and arithmetic operation clamps each channel into
//! `[0, FX_ONE]` (the fixed-point image of `[0.0, 1.0]`), so a well-formed
//! color can never leave that range whatever the magnitude of the inputs.

use vstd::prelude::*;
use crate::fx::{
    fx_add, fx_add_e, fx_clamp, fx_clamp_e, fx_div, fx_div_e, fx_mul, fx_mul_e, tdiv, FX_ONE,
};

verus! {

/// A color; each channel is a fixed-point scalar in `[0, FX_ONE]`.
#[derive(Clone, Copy, Debug, PartialEq, Eq, Structural)]
pub struct Color {
    pub r: i64,
    pub g: i64,
    pub b: i64,
}

/// The mathematical value of a `Color`.
pub ghost struct C3 {
    pub r: int,
    pub g: int,
    pub b: int,
}

impl View for Color {
    type V = C3;

    open spec fn view(&self) -> C3 {
        C3 { r: self.r as int, g: self.g as int, b: self.b as int }
    }
}

/// Each channel lies in `[0, FX_ONE]`.
pub open spec fn color_wf(c: C3) -> bool {
    &&& 0 <= c.r <= FX_ONE as int
    &&& 0 <= c.g <= FX_ONE as int
    &&& 0 <= c.b <= FX_ONE as int
}

/// Model of clamping each channel into `[0, FX_ONE]`.
pub open spec fn c3_clamp(c: C3) -> C3 {
    C3 {
        r: fx_clamp(c.r, 0, FX_ONE as int),
        g: fx_clamp(c.g, 0, FX_ONE as int),
        b: fx_clamp(c.b, 0, FX_ONE as int),
    }
}

/// Model of color addition.
pub open spec fn c3_add(a: C3, b: C3) -> C3 {
    c3_clamp(C3 { r: fx_add(a.r, b.r), g: fx_add(a.g, b.g), b: fx_add(a.b, b.b) })
}

/// Model of componentwise color multiplication.
pub open spec fn c3_mul(a: C3, b: C3) -> C3 {
    c3_clamp(C3 { r: fx_mul(a.r, b.r), g: fx_mul(a.g, b.g), b: fx_mul(a.b, b.b) })
}

/// Model of scaling a color by a scalar.
pub open spec fn c3_scale(a: C3, s: int) -> C3 {
    c3_clamp(C3 { r: fx_mul(a.r, s), g: fx_mul(a.g, s), b: fx_mul(a.b, s) })
}

/// Model of dividing a color by a scalar.
pub open spec fn c3_div(a: C3, d: int) -> C3 {
    c3_clamp(C3 { r: fx_div(a.r, d), g: fx_div(a.g, d), b: fx_div(a.b, d) })
}

/// Model of turning one channel into an 8-bit value, rounding to nearest.
pub open spec fn channel_byte(v: int) -> int {
    tdiv(fx_clamp(v, 0, FX_ONE as int) * 255 + 32768, FX_ONE as int)
}

/// Model of turning an 8-bit value into one channel.
pub open spec fn byte_channel(v: int) -> int {
    tdiv(v * (FX_ONE as int), 255)
}

/// Turn one clamped channel into an 8-bit value.
fn channel_byte_e(v: i64) -> (r: u8)
    ensures
        r as int == channel_byte(v as int),
{
    let c = fx_clamp_e(v, 0, FX_ONE);
    let w: u64 = (c as u64) * 255 + 32768;
    (w / 65536) as u8
}

impl Color {
    /// Build a color; channels are clamped into range.
    pub fn new(r: i64, g: i64, b: i64) -> (c: Color)
        ensures
            c@ == c3_clamp(C3 { r: r as int, g: g as int, b: b as int }),
            color_wf(c@),
    {
        Color {
            r: fx_clamp_e(r, 0, FX_ONE),
            g: fx_clamp_e(g, 0, FX_ONE),
            b: fx_clamp_e(b, 0, FX_ONE),
        }
    }

    /// Color addition; the result is always in range.
    pub fn add(&self, o: &Color) -> (c: Color)
        ensures
            c@ == c3_add(self@, o@),
            color_wf(c@),
    {
        Color::new(fx_add_e(self.r, o.r), fx_add_e(self.g, o.g), fx_add_e(self.b, o.b))
    }

    /// Componentwise color multiplication; the result is always in range.
    pub fn mul(&self, o: &Color) -> (c: Color)
        ensures
            c@ == c3_mul(self@, o@),
            color_wf(c@),
    {
        Color::new(fx_mul_e(self.r, o.r), fx_mul_e(self.g, o.g), fx_mul_e(self.b, o.b))
    }

    /// Scaling by a scalar; the result is always in range.
    pub fn scale(&self, s: i64) -> (c: Color)
        ensures
            c@ == c3_scale(self@, s as int),
            color_wf(c@),
    {
        Color::new(fx_mul_e(self.r, s), fx_mul_e(self.g, s), fx_mul_e(self.b, s))
    }

    /// Division by a scalar; the result is always in range.
    pub fn div(&self, d: i64) -> (c: Color)
        requires
            d != 0,
        ensures
            c@ == c3_div(self@, d as int),
            color_wf(c@),
    {
        Color::new(fx_div_e(self.r, d), fx_div_e(self.g, d), fx_div_e(self.b, d))
    }

    /// The color as an 8-bit RGB triple, each channel rounded to nearest.
    pub fn as_rgb(&self) -> (r: [u8; 3])
        ensures
            r[0] as int == channel_byte(self@.r),
            r[1] as int == channel_byte(self@.g),
            r[2] as int == channel_byte(self@.b),
    {
        [channel_byte_e(self.r), channel_byte_e(self.g), channel_byte_e(self.b)]
    }

    /// Build a color from an 8-bit RGB triple.
    pub fn from_rgb(rgb: [u8; 3]) -> (c: Color)
        ensures
            c@.r == byte_channel(rgb[0] as int),
            c@.g == byte_channel(rgb[1] as int),
            c@.b == byte_channel(rgb[2] as int),
            color_wf(c@),
    {
        let r: u64 = (rgb[0] as u64) * 65536 / 255;
        let g: u64 = (rgb[1] as u64) * 65536 / 255;
        let b: u64 = (rgb[2] as u64) * 65536 / 255;
        Color { r: r as i64, g: g as i64, b: b as i64 }
    }
}

} // verus!
