use super::convert::ConvertFrom;
use super::{narrow, narrow16, widen, widen8, Color, Zero};
use vstd::prelude::*;
use vstd::std_specs::convert::FromSpecImpl;

verus! {

/// Red, green, blue and alpha with 8 bits a channel.
#[derive(Copy, Clone, Eq, PartialEq, Debug, Structural)]
pub struct Nrgba {
    pub r: u8,
    pub g: u8,
    pub b: u8,
    pub a: u8,
}

impl Zero for Nrgba {
    open spec fn spec_zero() -> Self {
        Nrgba { r: 0, g: 0, b: 0, a: 0 }
    }

    fn zero() -> (z: Self) {
        Nrgba { r: 0, g: 0, b: 0, a: 0 }
    }
}

impl Color for Nrgba {
    open spec fn rgba(&self) -> (u32, u32, u32, u32) {
        (widen8(self.r), widen8(self.g), widen8(self.b), widen8(self.a))
    }

    fn as_rgba(&self) -> (c: (u32, u32, u32, u32)) {
        let r = widen(self.r);
        let g = widen(self.g);
        let b = widen(self.b);
        let a = widen(self.a);

        (r, g, b, a)
    }
}

impl<C: Color> ConvertFrom<C> for Nrgba {
    open spec fn obeys_convert_spec() -> bool {
        true
    }

    open spec fn converted(c: C) -> Nrgba {
        Nrgba {
            r: narrow16(c.rgba().0),
            g: narrow16(c.rgba().1),
            b: narrow16(c.rgba().2),
            a: narrow16(c.rgba().3),
        }
    }

    fn convert_from(c: C) -> (n: Nrgba) {
        let (r, g, b, a) = c.as_rgba();
        Nrgba { r: narrow(r), g: narrow(g), b: narrow(b), a: narrow(a) }
    }
}

/// Four bytes in one 32 bit value, the first in the lowest bits.
pub open spec fn pack32(b0: u8, b1: u8, b2: u8, b3: u8) -> u32 {
    (b0 as u32) | ((b1 as u32) << 8) | ((b2 as u32) << 16) | ((b3 as u32) << 24)
}

/// The four bytes of a 32 bit value, from the lowest bits.
pub open spec fn unpack32(c: u32) -> (u8, u8, u8, u8) {
    (
        (c & 0xff) as u8,
        ((c & 0xff00) >> 8) as u8,
        ((c & 0xff_0000) >> 16) as u8,
        ((c & 0xff00_0000) >> 24) as u8,
    )
}

proof fn lemma_packed32_bits(b0: u8, b1: u8, b2: u8, b3: u8)
    by (bit_vector)
    ensures
        ({
            let c = (b0 as u32) | ((b1 as u32) << 8) | ((b2 as u32) << 16) | ((b3 as u32) << 24);
            &&& (c & 0xff) as u8 == b0
            &&& ((c & 0xff00) >> 8) as u8 == b1
            &&& ((c & 0xff_0000) >> 16) as u8 == b2
            &&& ((c & 0xff00_0000) >> 24) as u8 == b3
        }),
{
}

/// Unpacking what was packed gives the four bytes back.
pub proof fn lemma_unpack_pack32(b0: u8, b1: u8, b2: u8, b3: u8)
    ensures
        unpack32(pack32(b0, b1, b2, b3)) == (b0, b1, b2, b3),
{
    lemma_packed32_bits(b0, b1, b2, b3);
}

proof fn lemma_bytes_of_32(c: u32)
    by (bit_vector)
    ensures
        (c & 0xff) <= 0xff,
        ((c & 0xff00) >> 8) <= 0xff,
        ((c & 0xff_0000) >> 16) <= 0xff,
        ((c & 0xff00_0000) >> 24) <= 0xff,
{
}

/// Packs four bytes into one 32 bit value, the first in the lowest bits.
pub(crate) fn pack(b0: u8, b1: u8, b2: u8, b3: u8) -> (v: u32)
    ensures
        v == pack32(b0, b1, b2, b3),
{
    let r = b0 as u32;
    let g = (b1 as u32) << 8;
    let b = (b2 as u32) << (8 * 2);
    let a = (b3 as u32) << (8 * 3);
    r | g | b | a
}

/// The four bytes of a 32 bit value, from the lowest bits.
pub(crate) fn unpack(c: u32) -> (v: (u8, u8, u8, u8))
    ensures
        v == unpack32(c),
{
    proof {
        lemma_bytes_of_32(c);
    }
    let r = (c & 0xff) as u8;
    let g = ((c & 0xff00) >> 8) as u8;
    let b = ((c & 0xff0000) >> 16) as u8;
    let a = ((c & 0xff000000) >> 24) as u8;
    (r, g, b, a)
}

impl From<Nrgba> for u32 {
    fn from(c: Nrgba) -> (v: u32) {
        pack(c.r, c.g, c.b, c.a)
    }
}

impl FromSpecImpl<Nrgba> for u32 {
    open spec fn obeys_from_spec() -> bool {
        true
    }

    open spec fn from_spec(c: Nrgba) -> u32 {
        pack32(c.r, c.g, c.b, c.a)
    }
}

impl From<u32> for Nrgba {
    fn from(c: u32) -> (n: Nrgba) {
        let (r, g, b, a) = unpack(c);
        Nrgba { r, g, b, a }
    }
}

impl FromSpecImpl<u32> for Nrgba {
    open spec fn obeys_from_spec() -> bool {
        true
    }

    open spec fn from_spec(c: u32) -> Nrgba {
        Nrgba { r: unpack32(c).0, g: unpack32(c).1, b: unpack32(c).2, a: unpack32(c).3 }
    }
}

} // verus!
