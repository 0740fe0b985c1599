//! Colors with three 8-bit channels and the blending primitives every
//! shader variant composes from.
//!
//! Channel arithmetic saturates at the `u8` range: scaling by a factor above
//! one is a deliberate "emission" boost whose overflow clamps at 255 (the
//! packing representation's ceiling), and adding two colors clamps the same
//! way. Interpolation takes an unclamped fixed-point factor; callers clamp
//! upstream where a ratio may leave `[0, 1]`.

use vstd::prelude::*;
use crate::fx::{Fx, FX_SCALE, FX_ONE, tdiv, wide_mul, tdiv_i128, lemma_tdiv_exact};

verus! {

/// An RGB color with 8-bit channels.
#[derive(Clone, Copy, PartialEq, Eq, Structural, Debug)]
pub struct Color {
    pub r: u8,
    pub g: u8,
    pub b: u8,
}

/// Clamps a mathematical integer into a `u8` channel.
pub open spec fn clamp_u8(x: int) -> int {
    if x < 0 {
        0
    } else if x > 255 {
        255
    } else {
        x
    }
}

/// Raw channel result of linear interpolation from `a` toward `b` by `t`.
pub open spec fn lerp_ch(a: int, b: int, t: int) -> int {
    clamp_u8(a + tdiv(t * (b - a), FX_SCALE as int))
}

/// Raw channel result of scaling `c` by factor `f`.
pub open spec fn scale_ch(c: int, f: int) -> int {
    clamp_u8(tdiv(c * f, FX_SCALE as int))
}

/// Spec-level interpolation between two colors.
pub open spec fn lerp_spec(a: Color, b: Color, t: int) -> Color {
    Color {
        r: lerp_ch(a.r as int, b.r as int, t) as u8,
        g: lerp_ch(a.g as int, b.g as int, t) as u8,
        b: lerp_ch(a.b as int, b.b as int, t) as u8,
    }
}

/// Spec-level component-wise scaling of a color.
pub open spec fn scale_spec(c: Color, f: int) -> Color {
    Color {
        r: scale_ch(c.r as int, f) as u8,
        g: scale_ch(c.g as int, f) as u8,
        b: scale_ch(c.b as int, f) as u8,
    }
}

/// The packed `0xRRGGBB` value of a color.
pub open spec fn hex_of(c: Color) -> int {
    c.r * 65536 + c.g * 256 + c.b
}

/// Spec-level saturating color sum.
pub open spec fn add_spec(a: Color, b: Color) -> Color {
    Color {
        r: clamp_u8(a.r as int + b.r as int) as u8,
        g: clamp_u8(a.g as int + b.g as int) as u8,
        b: clamp_u8(a.b as int + b.b as int) as u8,
    }
}

fn lerp_channel(a: u8, b: u8, t: Fx) -> (r: u8)
    ensures
        r as int == lerp_ch(a as int, b as int, t as int),
        t == 0 ==> r == a,
        t == FX_ONE ==> r == b,
{
    let diff: i64 = b as i64 - a as i64;
    let prod: i128 = wide_mul(t, diff);
    let q: i128 = tdiv_i128(prod, FX_SCALE as i128);
    proof {
        if prod >= 0 {
            vstd::arithmetic::div_mod::lemma_div_pos_is_pos(prod as int, FX_SCALE as int);
            vstd::arithmetic::div_mod::lemma_div_nonincreasing(prod as int, FX_SCALE as int);
        } else {
            vstd::arithmetic::div_mod::lemma_div_pos_is_pos(-(prod as int), FX_SCALE as int);
            vstd::arithmetic::div_mod::lemma_div_nonincreasing(-(prod as int), FX_SCALE as int);
        }
        if t == 0 {
            assert(0int * diff == 0) by (nonlinear_arith);
            vstd::arithmetic::div_mod::lemma_div_of0(FX_SCALE as int);
        }
        if t == FX_ONE {
            lemma_tdiv_exact(diff as int, FX_SCALE as int);
            assert((t as int) * (diff as int) == (diff as int) * 65536) by (nonlinear_arith)
                requires t == 65536;
        }
    }
    let v: i128 = a as i128 + q;
    if v < 0 {
        0
    } else if v > 255 {
        255
    } else {
        v as u8
    }
}

fn scale_channel(c: u8, f: Fx) -> (r: u8)
    ensures
        r as int == scale_ch(c as int, f as int),
{
    let prod: i128 = wide_mul(c as i64, f);
    let q: i128 = tdiv_i128(prod, FX_SCALE as i128);
    proof {
        if prod >= 0 {
            vstd::arithmetic::div_mod::lemma_div_pos_is_pos(prod as int, FX_SCALE as int);
            vstd::arithmetic::div_mod::lemma_div_nonincreasing(prod as int, FX_SCALE as int);
        } else {
            vstd::arithmetic::div_mod::lemma_div_pos_is_pos(-(prod as int), FX_SCALE as int);
            vstd::arithmetic::div_mod::lemma_div_nonincreasing(-(prod as int), FX_SCALE as int);
        }
    }
    if q < 0 {
        0
    } else if q > 255 {
        255
    } else {
        q as u8
    }
}

impl Color {
    /// Builds a color from its three channels.
    pub fn new(r: u8, g: u8, b: u8) -> (c: Color)
        ensures
            c == (Color { r, g, b }),
    {
        Color { r, g, b }
    }

    /// Component-wise linear interpolation from `self` toward `other` by the
    /// fixed-point factor `t`; `t` is not clamped by the primitive itself.
    /// The endpoints are exact: a factor of zero returns `self` and a factor
    /// of one returns `other`.
    pub fn lerp(&self, other: &Color, t: Fx) -> (r: Color)
        ensures
            r == lerp_spec(*self, *other, t as int),
            t == 0 ==> r == *self,
            t == FX_ONE ==> r == *other,
    {
        Color {
            r: lerp_channel(self.r, other.r, t),
            g: lerp_channel(self.g, other.g, t),
            b: lerp_channel(self.b, other.b, t),
        }
    }

    /// Component-wise scaling by a fixed-point factor, saturating at the
    /// channel ceiling; factors above one brighten and clamp at 255.
    pub fn scale(&self, f: Fx) -> (r: Color)
        ensures
            r == scale_spec(*self, f as int),
    {
        Color {
            r: scale_channel(self.r, f),
            g: scale_channel(self.g, f),
            b: scale_channel(self.b, f),
        }
    }

    /// Component-wise saturating sum of two colors.
    pub fn add_sat(&self, other: &Color) -> (r: Color)
        ensures
            r == add_spec(*self, *other),
    {
        let rr: u16 = self.r as u16 + other.r as u16;
        let gg: u16 = self.g as u16 + other.g as u16;
        let bb: u16 = self.b as u16 + other.b as u16;
        Color {
            r: if rr > 255 { 255 } else { rr as u8 },
            g: if gg > 255 { 255 } else { gg as u8 },
            b: if bb > 255 { 255 } else { bb as u8 },
        }
    }

    /// Packs the channels into `0xRRGGBB`.
    pub fn to_hex(&self) -> (h: u32)
        ensures
            h as int == hex_of(*self),
            h < 0x1000000,
    {
        self.r as u32 * 65536 + self.g as u32 * 256 + self.b as u32
    }
}

/// Interpolation by a zero factor returns the first color and interpolation
/// by a unit factor returns the second, exactly, for all colors.
pub proof fn lemma_lerp_endpoints(a: Color, b: Color)
    ensures
        lerp_spec(a, b, 0) == a,
        lerp_spec(a, b, FX_ONE as int) == b,
{
    assert(0int * (b.r - a.r) == 0) by (nonlinear_arith);
    assert(0int * (b.g - a.g) == 0) by (nonlinear_arith);
    assert(0int * (b.b - a.b) == 0) by (nonlinear_arith);
    assert(tdiv(0, FX_SCALE as int) == 0) by {
        vstd::arithmetic::div_mod::lemma_div_of0(FX_SCALE as int);
    }
    assert(65536int * (b.r - a.r) == (b.r - a.r) * 65536) by (nonlinear_arith);
    assert(65536int * (b.g - a.g) == (b.g - a.g) * 65536) by (nonlinear_arith);
    assert(65536int * (b.b - a.b) == (b.b - a.b) * 65536) by (nonlinear_arith);
    lemma_tdiv_exact(b.r - a.r, FX_SCALE as int);
    lemma_tdiv_exact(b.g - a.g, FX_SCALE as int);
    lemma_tdiv_exact(b.b - a.b, FX_SCALE as int);
}

} // verus!
