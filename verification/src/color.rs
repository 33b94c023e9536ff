//! Pixel color values with an explicit alpha channel.

use vstd::prelude::*;

verus! {

/// An RGBA pixel color. Channel values are kept as signed 16-bit
/// integers, wide enough for an 8-bit channel plus headroom.
pub struct Color {
    r: i16,
    g: i16,
    b: i16,
    a: i16,
}

impl Color {
    /// The red channel.
    pub closed spec fn spec_red(&self) -> i16 {
        self.r
    }

    /// The green channel.
    pub closed spec fn spec_green(&self) -> i16 {
        self.g
    }

    /// The blue channel.
    pub closed spec fn spec_blue(&self) -> i16 {
        self.b
    }

    /// The alpha channel.
    pub closed spec fn spec_alpha(&self) -> i16 {
        self.a
    }

    /// Builds a color from its three visible channels; the alpha channel
    /// is always fully opaque.
    pub fn new(r: i16, g: i16, b: i16) -> (c: Color)
        ensures
            c.spec_red() == r,
            c.spec_green() == g,
            c.spec_blue() == b,
            c.spec_alpha() == 255,
    {
        Color { r: r, g: g, b: b, a: 255 }
    }

    /// Reads the red channel.
    pub fn red(&self) -> (v: i16)
        ensures
            v == self.spec_red(),
    {
        self.r
    }

    /// Reads the green channel.
    pub fn green(&self) -> (v: i16)
        ensures
            v == self.spec_green(),
    {
        self.g
    }

    /// Reads the blue channel.
    pub fn blue(&self) -> (v: i16)
        ensures
            v == self.spec_blue(),
    {
        self.b
    }

    /// Reads the alpha channel.
    pub fn alpha(&self) -> (v: i16)
        ensures
            v == self.spec_alpha(),
    {
        self.a
    }
}

} // verus!
