//! Color values and their canonical hexadecimal text.

use vstd::prelude::*;

use crate::text::{byte_hex, push_byte_hex};

verus! {

/// An 8-bit RGBA color.
#[derive(Debug, Clone, Copy, PartialEq, Eq, Structural)]
pub struct RgbaColor {
    pub r: u8,
    pub g: u8,
    pub b: u8,
    pub a: u8,
}

/// A color value, such as `#f79143`.
#[derive(Debug, Clone, Copy, PartialEq, Eq, Structural)]
pub enum Color {
    Rgba(RgbaColor),
}

/// The canonical text of a color: `#` and six hexadecimal digits, with two
/// more for the alpha channel when it is not fully opaque.
pub open spec fn color_text(c: Color) -> Seq<char> {
    match c {
        Color::Rgba(v) => "#"@ + byte_hex(v.r as nat) + byte_hex(v.g as nat) + byte_hex(
            v.b as nat,
        ) + (if v.a == 255 {
            Seq::<char>::empty()
        } else {
            byte_hex(v.a as nat)
        }),
    }
}

impl RgbaColor {
    /// A color from its four channels.
    pub fn new(r: u8, g: u8, b: u8, a: u8) -> (c: Self)
        ensures
            c == (RgbaColor { r, g, b, a }),
    {
        RgbaColor { r, g, b, a }
    }
}

impl Color {
    /// The canonical text of this color.
    pub fn to_text(&self) -> (t: String)
        ensures
            t@ == color_text(*self),
    {
        match self {
            Color::Rgba(v) => {
                let mut t = String::from_str("#");
                push_byte_hex(&mut t, v.r);
                push_byte_hex(&mut t, v.g);
                push_byte_hex(&mut t, v.b);
                if v.a != 255 {
                    push_byte_hex(&mut t, v.a);
                }
                proof {
                    assert(t@ =~= color_text(*self));
                }
                t
            },
        }
    }
}

} // verus!
