//! Packed 16-bit colour: 5 bits red, 6 bits green, 5 bits blue.

use vstd::prelude::*;

use crate::fixed::{fx_floor, fx_mul, Fixed};

verus! {

/// A packed 5:6:5 colour word.
#[derive(Clone, Copy, Debug, PartialEq, Eq, Structural)]
pub struct Rgb565 {
    pub bits: u16,
}

/// Pack three 8-bit channels into a 5:6:5 word, dropping the low bits.
pub open spec fn pack565(r: u8, g: u8, b: u8) -> u16 {
    (((r as u16) >> 3) << 11) | (((g as u16) >> 2) << 5) | ((b as u16) >> 3)
}

/// One shaded channel: widen the 8-bit channel to fixed point, multiply by
/// the scalar, floor, and keep the low byte as the hardware register would.
pub open spec fn scale_channel(c: u8, f: int) -> u8 {
    ((fx_floor(fx_mul(c as int * 0x8000, f)) + 0x10000) % 256) as u8
}

impl Rgb565 {
    /// Pack three 8-bit channels; the low 3-3-2 bits are lost.
    pub fn new(r: u8, g: u8, b: u8) -> (c: Rgb565)
        ensures
            c.bits == pack565(r, g, b),
    {
        let r16 = r as u16;
        let g16 = g as u16;
        let b16 = b as u16;
        Rgb565 { bits: ((r16 >> 3) << 11) | ((g16 >> 2) << 5) | (b16 >> 3) }
    }

    /// Black.
    pub fn black() -> (c: Rgb565)
        ensures
            c.bits == 0,
    {
        Rgb565 { bits: 0 }
    }

    /// Red channel, scaled back to 0..=255.
    pub fn r(&self) -> (v: u8)
        ensures
            v == ((self.bits >> 11) as u8) << 3,
    {
        ((self.bits >> 11) as u8) << 3
    }

    /// Green channel, scaled back to 0..=255.
    pub fn g(&self) -> (v: u8)
        ensures
            v == ((self.bits >> 5) as u8 & 0x3f) << 2,
    {
        ((self.bits >> 5) as u8 & 0x3f) << 2
    }

    /// Blue channel, scaled back to 0..=255.
    pub fn b(&self) -> (v: u8)
        ensures
            v == ((self.bits & 0x1f) as u8) << 3,
    {
        ((self.bits & 0x1f) as u8) << 3
    }

    /// Scale each channel by a fixed-point factor and repack; used for
    /// shading.
    pub fn scale(self, f: Fixed) -> (c: Rgb565)
        ensures
            c.bits == pack565(
                scale_channel(self.r_spec(), f.raw as int),
                scale_channel(self.g_spec(), f.raw as int),
                scale_channel(self.b_spec(), f.raw as int),
            ),
    {
        let r = Self::scale_one(self.r(), f);
        let g = Self::scale_one(self.g(), f);
        let b = Self::scale_one(self.b(), f);
        Rgb565::new(r, g, b)
    }

    /// The red accessor, as a specification value.
    pub open spec fn r_spec(self) -> u8 {
        ((self.bits >> 11) as u8) << 3
    }

    /// The green accessor, as a specification value.
    pub open spec fn g_spec(self) -> u8 {
        ((self.bits >> 5) as u8 & 0x3f) << 2
    }

    /// The blue accessor, as a specification value.
    pub open spec fn b_spec(self) -> u8 {
        ((self.bits & 0x1f) as u8) << 3
    }

    /// Scale a single 8-bit channel by a fixed-point factor.
    pub(crate) fn scale_one(c: u8, f: Fixed) -> (v: u8)
        ensures
            v == scale_channel(c, f.raw as int),
    {
        let wide = Fixed::from_int(c as i32);
        let floored: i32 = wide.mul(f).floor();
        (((floored + 0x10000) as u32) % 256) as u8
    }
}

} // verus!
