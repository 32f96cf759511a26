use super::convert::ConvertFrom;
use super::{luma8, lemma_luma_shift, widen, widen8, Color, CHANNEL_MAX};
use vstd::prelude::*;
use vstd::std_specs::convert::FromSpecImpl;

verus! {

/// A shade of gray with 8 bits.
#[derive(Copy, Clone, Eq, PartialEq, Debug, Structural)]
pub struct Gray {
    pub y: u8,
}

impl Color for Gray {
    open spec fn rgba(&self) -> (u32, u32, u32, u32) {
        (widen8(self.y), widen8(self.y), widen8(self.y), CHANNEL_MAX)
    }

    fn as_rgba(&self) -> (c: (u32, u32, u32, u32)) {
        let y = widen(self.y);

        let r = y;
        let g = y;
        let b = y;
        let a = 0xffff;

        (r, g, b, a)
    }
}

impl<C: Color> ConvertFrom<C> for Gray {
    open spec fn obeys_convert_spec() -> bool {
        true
    }

    open spec fn converted(c: C) -> Gray {
        Gray { y: luma8(c.rgba().0, c.rgba().1, c.rgba().2) }
    }

    fn convert_from(c: C) -> (r: Gray) {
        let (r, g, b, _) = c.as_rgba();
        let s: u32 = 19595 * r + 38470 * g + 7471 * b + 0x8000;
        proof {
            lemma_luma_shift(s);
        }
        let y = (s >> 24) as u8;
        Gray { y }
    }
}

impl From<Gray> for u8 {
    fn from(c: Gray) -> (y: u8) {
        c.y
    }
}

impl FromSpecImpl<Gray> for u8 {
    open spec fn obeys_from_spec() -> bool {
        true
    }

    open spec fn from_spec(c: Gray) -> u8 {
        c.y
    }
}

impl From<u8> for Gray {
    fn from(y: u8) -> (c: Gray) {
        Gray { y }
    }
}

impl FromSpecImpl<u8> for Gray {
    open spec fn obeys_from_spec() -> bool {
        true
    }

    open spec fn from_spec(y: u8) -> Gray {
        Gray { y }
    }
}

} // verus!
