use vstd::prelude::*;
use vstd::string::*;
use vstd::utf8::encode_utf8;
use crate::colors::names::{from_known_name, lowercase, notation_color};

verus! {

/// A colour with red, green, blue and alpha channels of eight bits each.
///
/// An alpha of 255 is fully opaque.
#[derive(Debug, Clone, Copy, PartialEq, Eq, Structural)]
pub struct Color {
    pub r: u8,
    pub g: u8,
    pub b: u8,
    pub a: u8,
}

impl Color {
    /// The opaque colour with the given channels.
    pub open spec fn opaque(r: u8, g: u8, b: u8) -> Color {
        Color { r, g, b, a: 255 }
    }

    /// Creates a colour from its four channels.
    pub fn new_rgba(r: u8, g: u8, b: u8, a: u8) -> (color: Color)
        ensures
            color == (Color { r, g, b, a }),
    {
        Color { r, g, b, a }
    }

    /// Creates a fully opaque colour from its red, green and blue channels.
    pub fn new_rgb(r: u8, g: u8, b: u8) -> (color: Color)
        ensures
            color == Color::opaque(r, g, b),
    {
        Color::new_rgba(r, g, b, 255)
    }

    /// Creates a colour from a name or from hexadecimal notation. A notation
    /// that stands for no colour gives opaque black.
    pub fn new_str(name_or_hex: &str) -> (color: Color)
        ensures
            color == match notation_color(
                encode_utf8(lowercase(name_or_hex@)),
                name_or_hex.spec_bytes(),
            ) {
                Some(found) => found,
                None => Color::opaque(0, 0, 0),
            },
    {
        match from_known_name(name_or_hex) {
            Some(found) => found,
            None => Color::new_rgb(0, 0, 0),
        }
    }

    /// The red channel.
    pub fn red(&self) -> (channel: u8)
        ensures
            channel == self.r,
    {
        self.r
    }

    /// The green channel.
    pub fn green(&self) -> (channel: u8)
        ensures
            channel == self.g,
    {
        self.g
    }

    /// The blue channel.
    pub fn blue(&self) -> (channel: u8)
        ensures
            channel == self.b,
    {
        self.b
    }

    /// The alpha channel.
    pub fn alpha(&self) -> (channel: u8)
        ensures
            channel == self.a,
    {
        self.a
    }
}

} // verus!
