//! Fixed-point colors: each channel is a fixed-point fraction of full
//! intensity, built from the usual 8-bit channel values.

use vstd::prelude::*;

use crate::fx::{tdiv, FX_ONE};

verus! {

/// A color with fixed-point channels in `[0, FX_ONE]`.
#[derive(Clone, Copy, Debug, PartialEq, Eq, Structural)]
pub struct Color {
    pub r: i64,
    pub g: i64,
    pub b: i64,
    pub a: i64,
}

/// An 8-bit channel rescaled to a fixed-point fraction of one.
pub open spec fn channel_fx(v: u8) -> int {
    tdiv(v * FX_ONE, 255)
}

/// One 8-bit channel as a fixed-point intensity.
fn channel(v: u8) -> (r: i64)
    ensures
        r == channel_fx(v),
        0 <= r <= FX_ONE,
{
    let raw: u64 = (v as u64) * 65536;
    (raw / 255) as i64
}

impl Color {
    /// A color from RGBA channel values in the range 0-255.
    pub fn from_rgba(r: u8, g: u8, b: u8, a: u8) -> (c: Color)
        ensures
            c.r == channel_fx(r),
            c.g == channel_fx(g),
            c.b == channel_fx(b),
            c.a == channel_fx(a),
    {
        Color { r: channel(r), g: channel(g), b: channel(b), a: channel(a) }
    }

    /// A fully opaque color from RGB channel values in the range 0-255.
    pub fn from_rgb(r: u8, g: u8, b: u8) -> (c: Color)
        ensures
            c.r == channel_fx(r),
            c.g == channel_fx(g),
            c.b == channel_fx(b),
            c.a == channel_fx(255),
    {
        Color::from_rgba(r, g, b, 255)
    }

    /// A color from one packed 0xRRGGBBAA value.
    pub fn from_hex(hex: u32) -> (c: Color)
        ensures
            c.r == channel_fx(((hex >> 24) & 0xff) as u8),
            c.g == channel_fx(((hex >> 16) & 0xff) as u8),
            c.b == channel_fx(((hex >> 8) & 0xff) as u8),
            c.a == channel_fx((hex & 0xff) as u8),
    {
        let r = ((hex >> 24) & 0xff) as u8;
        let g = ((hex >> 16) & 0xff) as u8;
        let b = ((hex >> 8) & 0xff) as u8;
        let a = (hex & 0xff) as u8;
        Color::from_rgba(r, g, b, a)
    }
}

} // verus!
