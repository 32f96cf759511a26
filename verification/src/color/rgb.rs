use super::convert::ConvertFrom;
use super::{narrow, narrow16, widen, widen8, Color, CHANNEL_MAX};
use vstd::prelude::*;

verus! {

/// Red, green and blue with 8 bits a channel.
#[derive(Copy, Clone, Eq, PartialEq, Debug, Structural)]
pub struct Rgb {
    pub r: u8,
    pub g: u8,
    pub b: u8,
}

impl Color for Rgb {
    open spec fn rgba(&self) -> (u32, u32, u32, u32) {
        (widen8(self.r), widen8(self.g), widen8(self.b), CHANNEL_MAX)
    }

    fn as_rgba(&self) -> (c: (u32, u32, u32, u32)) {
        let r = widen(self.r);
        let g = widen(self.g);
        let b = widen(self.b);
        let a = 0xffff;

        (r, g, b, a)
    }
}

impl<C: Color> ConvertFrom<C> for Rgb {
    open spec fn obeys_convert_spec() -> bool {
        true
    }

    open spec fn converted(c: C) -> Rgb {
        Rgb { r: narrow16(c.rgba().0), g: narrow16(c.rgba().1), b: narrow16(c.rgba().2) }
    }

    fn convert_from(c: C) -> (n: Rgb) {
        let (r, g, b, _) = c.as_rgba();
        Rgb { r: narrow(r), g: narrow(g), b: narrow(b) }
    }
}

} // verus!
