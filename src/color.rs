//! Colors, sampled per pixel and written on the wire.
use vstd::prelude::*;

use crate::text::{hex_byte, push_hex_byte};

verus! {

/// A color with red, green, blue and alpha channels, each from 0 to 255.
#[derive(Clone, Copy, Debug, PartialEq, Eq, Structural)]
pub struct Color {
    pub r: u8,
    pub g: u8,
    pub b: u8,
    pub a: u8,
}

impl Color {
    /// The hexadecimal form: `RRGGBB` for an opaque color, `RRGGBBAA` else.
    pub open spec fn hex(self) -> Seq<char> {
        let rgb = hex_byte(self.r) + hex_byte(self.g) + hex_byte(self.b);
        if self.a == 255 {
            rgb
        } else {
            rgb + hex_byte(self.a)
        }
    }

    /// Creates a color from its four channels.
    pub fn from(r: u8, g: u8, b: u8, a: u8) -> (c: Color)
        ensures
            c == (Color { r, g, b, a }),
    {
        Color { r, g, b, a }
    }

    /// The color in uppercase hexadecimal, such as `FFFFFF` for white and
    /// `FF000080` for half transparent red.
    pub fn as_hex(&self) -> (s: String)
        ensures
            s@ == self.hex(),
    {
        let mut s = String::new();
        push_hex_byte(&mut s, self.r);
        push_hex_byte(&mut s, self.g);
        push_hex_byte(&mut s, self.b);
        if self.a != 255 {
            push_hex_byte(&mut s, self.a);
        }
        assert(s@ =~= self.hex());
        s
    }
}

} // verus!
