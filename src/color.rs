//! RGB colors with saturating blend and scale operations.
//!
//! Scalars (blend weights, intensities, noise values) are fixed-point
//! integers counted in millionths: `UNIT` stands for 1.0.
use vstd::prelude::*;

verus! {

/// The fixed-point representation of 1.0.
pub const UNIT: i32 = 1000000;

#[derive(Clone, Copy, Debug, PartialEq, Eq, Structural)]
pub struct Color {
    pub r: u8,
    pub g: u8,
    pub b: u8,
}

/// Saturates an integer into the channel range `[0, 255]`.
pub open spec fn clamp_channel(v: int) -> u8 {
    if v < 0 {
        0
    } else if v > 255 {
        255
    } else {
        v as u8
    }
}

/// `a + (b - a) * t` with `t` in millionths, rounded down and saturated.
pub open spec fn lerp_channel(a: u8, b: u8, t: int) -> u8 {
    clamp_channel((a * UNIT + (b - a) * t) / (UNIT as int))
}

/// `c * k` with `k` in millionths, rounded down and saturated.
pub open spec fn scale_channel(c: u8, k: int) -> u8 {
    clamp_channel((c * k) / (UNIT as int))
}

pub open spec fn rgb(r: u8, g: u8, b: u8) -> Color {
    Color { r, g, b }
}

pub open spec fn black() -> Color {
    rgb(0, 0, 0)
}

/// Component-wise linear interpolation from `a` towards `b` by weight `t`.
pub open spec fn lerped(a: Color, b: Color, t: int) -> Color {
    rgb(lerp_channel(a.r, b.r, t), lerp_channel(a.g, b.g, t), lerp_channel(a.b, b.b, t))
}

/// Component-wise scaling of `c` by factor `k`.
pub open spec fn scaled(c: Color, k: int) -> Color {
    rgb(scale_channel(c.r, k), scale_channel(c.g, k), scale_channel(c.b, k))
}

fn lerp_component(a: u8, b: u8, t: i32) -> (r: u8)
    ensures
        r == lerp_channel(a, b, t as int),
{
    let d: i64 = b as i64 - a as i64;
    proof {
        assert(-255 <= d <= 255);
        assert(-255 * 0x8000_0000 <= d * t <= 255 * 0x8000_0000) by (nonlinear_arith)
            requires
                -255 <= d <= 255,
                -0x8000_0000 <= t < 0x8000_0000,
        ;
    }
    let num: i64 = a as i64 * UNIT as i64 + d * t as i64;
    if num < 0 {
        0
    } else {
        let q: i64 = num / UNIT as i64;
        if q > 255 {
            255
        } else {
            q as u8
        }
    }
}

fn scale_component(c: u8, k: i32) -> (r: u8)
    ensures
        r == scale_channel(c, k as int),
{
    proof {
        assert(-255 * 0x8000_0000 <= c * k <= 255 * 0x8000_0000) by (nonlinear_arith)
            requires
                0 <= c <= 255,
                -0x8000_0000 <= k < 0x8000_0000,
        ;
    }
    let num: i64 = c as i64 * k as i64;
    if num < 0 {
        0
    } else {
        let q: i64 = num / UNIT as i64;
        if q > 255 {
            255
        } else {
            q as u8
        }
    }
}

impl Color {
    pub fn new(r: u8, g: u8, b: u8) -> (c: Color)
        ensures
            c == rgb(r, g, b),
    {
        Color { r, g, b }
    }

    /// Moves from `self` towards `other` by weight `t` (millionths).
    /// Weights outside `[0, UNIT]` extrapolate, saturating each channel.
    pub fn lerp(&self, other: &Color, t: i32) -> (c: Color)
        ensures
            c == lerped(*self, *other, t as int),
    {
        Color {
            r: lerp_component(self.r, other.r, t),
            g: lerp_component(self.g, other.g, t),
            b: lerp_component(self.b, other.b, t),
        }
    }

    /// Multiplies each channel by `k` (millionths), saturating at 0 and 255.
    pub fn scale(&self, k: i32) -> (c: Color)
        ensures
            c == scaled(*self, k as int),
    {
        Color {
            r: scale_component(self.r, k),
            g: scale_component(self.g, k),
            b: scale_component(self.b, k),
        }
    }
}

/// Interpolating with weight 0 gives the start color, and with weight 1 the
/// end color, for every pair of colors.
pub proof fn lemma_lerp_endpoints(a: Color, b: Color)
    ensures
        lerped(a, b, 0) == a,
        lerped(a, b, UNIT as int) == b,
{
    assert((a.r * UNIT + (b.r - a.r) * UNIT) == b.r * UNIT);
    assert((a.g * UNIT + (b.g - a.g) * UNIT) == b.g * UNIT);
    assert((a.b * UNIT + (b.b - a.b) * UNIT) == b.b * UNIT);
}

/// Scaling by intensity 0 gives black, and by intensity 1 leaves the color
/// unchanged.
pub proof fn lemma_scale_endpoints(c: Color)
    ensures
        scaled(c, 0) == black(),
        scaled(c, UNIT as int) == c,
{
}

} // verus!
