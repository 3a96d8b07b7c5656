//! Linear colors, one fixed-point scalar per channel.
//!
//! Channel values are unclamped while shading accumulates contributions;
//! gamma correction and quantization to display bytes happen outside the
//! library.

use vstd::prelude::*;
use crate::fixed::{fadd, fadd_s, fdiv_int, fmul, fmul_s, fsub, fsub_s, tdiv_s, SCALE};

verus! {

/// A linear color; each channel counts units of `1 / SCALE`.
#[derive(Clone, Copy, Debug, PartialEq, Eq, Structural)]
pub struct Color {
    pub r: i64,
    pub g: i64,
    pub b: i64,
}

/// Channelwise sum.
pub open spec fn cadd_s(a: Color, b: Color) -> Color {
    Color {
        r: fadd_s(a.r as int, b.r as int) as i64,
        g: fadd_s(a.g as int, b.g as int) as i64,
        b: fadd_s(a.b as int, b.b as int) as i64,
    }
}

/// Channelwise product.
pub open spec fn cmul_s(a: Color, b: Color) -> Color {
    Color {
        r: fmul_s(a.r as int, b.r as int) as i64,
        g: fmul_s(a.g as int, b.g as int) as i64,
        b: fmul_s(a.b as int, b.b as int) as i64,
    }
}

/// Product with a scalar.
pub open spec fn cscale_s(a: Color, k: int) -> Color {
    Color {
        r: fmul_s(a.r as int, k) as i64,
        g: fmul_s(a.g as int, k) as i64,
        b: fmul_s(a.b as int, k) as i64,
    }
}

/// Linear blend: `a * (1 - k) + b * k`, with `k` a fixed-point weight.
pub open spec fn cblend_s(a: Color, b: Color, k: int) -> Color {
    cadd_s(cscale_s(a, fsub_s(SCALE as int, k)), cscale_s(b, k))
}

/// Pure black.
pub open spec fn black_s() -> Color {
    Color { r: 0, g: 0, b: 0 }
}

/// An 8-bit channel mapped into the fixed-point unit interval.
pub open spec fn channel_from_u8_s(v: int) -> int {
    tdiv_s(v * SCALE, 255)
}

impl Color {
    pub fn new(r: i64, g: i64, b: i64) -> (c: Color)
        ensures
            c == (Color { r, g, b }),
    {
        Color { r, g, b }
    }

    pub fn black() -> (c: Color)
        ensures
            c == black_s(),
    {
        Color { r: 0, g: 0, b: 0 }
    }

    pub fn white() -> (c: Color)
        ensures
            c == (Color { r: SCALE, g: SCALE, b: SCALE }),
    {
        Color { r: SCALE, g: SCALE, b: SCALE }
    }

    /// Build a color from 8-bit channels, mapping 255 to one.
    pub fn from_u8(r: u8, g: u8, b: u8) -> (c: Color)
        ensures
            c.r == channel_from_u8_s(r as int),
            c.g == channel_from_u8_s(g as int),
            c.b == channel_from_u8_s(b as int),
    {
        Color {
            r: fdiv_int((r as i64) * SCALE, 255),
            g: fdiv_int((g as i64) * SCALE, 255),
            b: fdiv_int((b as i64) * SCALE, 255),
        }
    }

    pub fn add(self, rhs: Color) -> (c: Color)
        ensures
            c == cadd_s(self, rhs),
    {
        Color { r: fadd(self.r, rhs.r), g: fadd(self.g, rhs.g), b: fadd(self.b, rhs.b) }
    }

    pub fn mul(self, rhs: Color) -> (c: Color)
        ensures
            c == cmul_s(self, rhs),
    {
        Color { r: fmul(self.r, rhs.r), g: fmul(self.g, rhs.g), b: fmul(self.b, rhs.b) }
    }

    pub fn scale(self, k: i64) -> (c: Color)
        ensures
            c == cscale_s(self, k as int),
    {
        Color { r: fmul(self.r, k), g: fmul(self.g, k), b: fmul(self.b, k) }
    }

    /// Linear blend of `self` toward `rhs` by the weight `k`.
    pub fn blend(self, rhs: Color, k: i64) -> (c: Color)
        ensures
            c == cblend_s(self, rhs, k as int),
    {
        self.scale(fsub(SCALE, k)).add(rhs.scale(k))
    }
}

} // verus!
