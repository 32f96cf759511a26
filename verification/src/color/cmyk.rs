use super::convert::ConvertFrom;
use super::nrgba::{pack, pack32, unpack, unpack32};
use super::{lemma_narrow16, narrow16, Color, CHANNEL_MAX};
use vstd::prelude::*;
use vstd::std_specs::convert::FromSpecImpl;

verus! {

/// Cyan, magenta, yellow and black with 8 bits a channel.
#[derive(Copy, Clone, Eq, PartialEq, Debug, Structural)]
pub struct Cmyk {
    pub c: u8,
    pub m: u8,
    pub y: u8,
    pub k: u8,
}

/// What an ink leaves of the light that the black lets through: both are
/// stretched to 16 bits and taken away from full light, and the two parts
/// are multiplied.
pub open spec fn ink_to_light(ink: u8, black: u8) -> u32 {
    (((0xffff - ink * 0x101) * (0xffff - black * 0x101)) / 0xffff) as u32
}

/// The amount of an ink for a channel `v` of a colour whose weakest channel
/// is `w`, with 16 bits. The difference `w - v` and its product with 65535
/// are taken modulo 2^32.
pub open spec fn light_to_ink(w: u32, v: u32) -> u32 {
    w.wrapping_sub(v).wrapping_mul(0xffff) / w
}

/// The weakest of three channels.
pub open spec fn weakest(r: u32, g: u32, b: u32) -> u32 {
    if r <= g && r <= b {
        r
    } else if g <= b {
        g
    } else {
        b
    }
}

proof fn lemma_ink_bound(a: u32, w: u32)
    by (nonlinear_arith)
    requires
        a <= 0xffff,
        w <= 0xffff,
    ensures
        a * w <= 0xffff * 0xffff,
        (a * w) / 0xffff <= 0xffff,
{
}

impl Color for Cmyk {
    open spec fn rgba(&self) -> (u32, u32, u32, u32) {
        (
            ink_to_light(self.c, self.k),
            ink_to_light(self.m, self.k),
            ink_to_light(self.y, self.k),
            CHANNEL_MAX,
        )
    }

    fn as_rgba(&self) -> (c: (u32, u32, u32, u32)) {
        let c = self.c as u32;
        let m = self.m as u32;
        let y = self.y as u32;
        let k = self.k as u32;

        let w = 0xffff - k * 0x101;
        proof {
            lemma_ink_bound((0xffff - c * 0x101) as u32, w);
            lemma_ink_bound((0xffff - m * 0x101) as u32, w);
            lemma_ink_bound((0xffff - y * 0x101) as u32, w);
        }

        let r = (0xffff - c * 0x101) * w / 0xffff;
        let g = (0xffff - m * 0x101) * w / 0xffff;
        let b = (0xffff - y * 0x101) * w / 0xffff;
        let a = 0xffff;

        (r, g, b, a)
    }
}

/// The byte above the lowest of a 32 bit value.
pub open spec fn second_byte(v: u32) -> u8 {
    ((v >> 8) & 0xff) as u8
}

fn byte_of(v: u32) -> (b: u8)
    ensures
        b == second_byte(v),
{
    assert(((v >> 8) & 0xff) <= 0xff) by (bit_vector);
    ((v >> 8) & 0xff) as u8
}

impl<C: Color> ConvertFrom<C> for Cmyk {
    open spec fn obeys_convert_spec() -> bool {
        true
    }

    open spec fn converted(c: C) -> Cmyk {
        let w = weakest(c.rgba().0, c.rgba().1, c.rgba().2);
        if w == 0 {
            Cmyk { c: 0, m: 0, y: 0, k: 0xff }
        } else {
            Cmyk {
                c: second_byte(light_to_ink(w, c.rgba().0)),
                m: second_byte(light_to_ink(w, c.rgba().1)),
                y: second_byte(light_to_ink(w, c.rgba().2)),
                k: second_byte((0xffff - w) as u32),
            }
        }
    }

    fn convert_from(c: C) -> (n: Cmyk) {
        let (r, g, b, _) = c.as_rgba();

        let w = if r <= g && r <= b {
            r
        } else if g <= b {
            g
        } else {
            b
        };

        if w == 0 {
            return Cmyk { c: 0, m: 0, y: 0, k: 0xff };
        }
        let c = w.wrapping_sub(r).wrapping_mul(0xffff) / w;
        let m = w.wrapping_sub(g).wrapping_mul(0xffff) / w;
        let y = w.wrapping_sub(b).wrapping_mul(0xffff) / w;
        let k = 0xffff - w;

        Cmyk { c: byte_of(c), m: byte_of(m), y: byte_of(y), k: byte_of(k) }
    }
}

impl From<Cmyk> for u32 {
    fn from(cmyk: Cmyk) -> (v: u32) {
        pack(cmyk.c, cmyk.m, cmyk.y, cmyk.k)
    }
}

impl FromSpecImpl<Cmyk> for u32 {
    open spec fn obeys_from_spec() -> bool {
        true
    }

    open spec fn from_spec(cmyk: Cmyk) -> u32 {
        pack32(cmyk.c, cmyk.m, cmyk.y, cmyk.k)
    }
}

impl From<u32> for Cmyk {
    fn from(cmyk: u32) -> (n: Cmyk) {
        let (c, m, y, k) = unpack(cmyk);
        Cmyk { c, m, y, k }
    }
}

impl FromSpecImpl<u32> for Cmyk {
    open spec fn obeys_from_spec() -> bool {
        true
    }

    open spec fn from_spec(cmyk: u32) -> Cmyk {
        Cmyk { c: unpack32(cmyk).0, m: unpack32(cmyk).1, y: unpack32(cmyk).2, k: unpack32(cmyk).3 }
    }
}

} // verus!
