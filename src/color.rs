use vstd::prelude::*;

verus! {

/// A colour with an alpha channel, each component one byte.
#[derive(Clone, Copy, Debug, PartialEq, Eq, Structural)]
pub struct Color {
    pub r: u8,
    pub g: u8,
    pub b: u8,
    pub a: u8,
}

impl From<(u8, u8, u8, u8)> for Color {
    fn from(c: (u8, u8, u8, u8)) -> (r: Color) {
        Color { r: c.0, g: c.1, b: c.2, a: c.3 }
    }
}

impl vstd::std_specs::convert::FromSpecImpl<(u8, u8, u8, u8)> for Color {
    open spec fn obeys_from_spec() -> bool {
        true
    }

    open spec fn from_spec(c: (u8, u8, u8, u8)) -> Color {
        Color { r: c.0, g: c.1, b: c.2, a: c.3 }
    }
}

/// Three components give an opaque colour: alpha is 255.
impl From<(u8, u8, u8)> for Color {
    fn from(c: (u8, u8, u8)) -> (r: Color) {
        Color { r: c.0, g: c.1, b: c.2, a: 255 }
    }
}

impl vstd::std_specs::convert::FromSpecImpl<(u8, u8, u8)> for Color {
    open spec fn obeys_from_spec() -> bool {
        true
    }

    open spec fn from_spec(c: (u8, u8, u8)) -> Color {
        Color { r: c.0, g: c.1, b: c.2, a: 255 }
    }
}

} // verus!
