//! Colours, and the byte order tags of their 16 bit channels.

pub mod convert;

mod cmyk;
mod gray;
mod gray16;
mod nrgba;
mod nrgba64;
mod raw;
mod rgb;
mod rgb48;

pub use cmyk::{ink_to_light, light_to_ink, second_byte, weakest, Cmyk};
pub use gray::Gray;
pub use gray16::{gray_rgba, Gray16, Gray16Be, Gray16Le, Gray16Ne};
pub use nrgba::{lemma_unpack_pack32, pack32, unpack32, Nrgba};
pub use nrgba64::{
    lemma_unpack_pack, pack64, premultiplied, unpack64, Nrgba64, Nrgba64Be, Nrgba64Le, Nrgba64Ne,
};
pub use rgb::Rgb;
pub use rgb48::{opaque_rgba, unpack48, Rgb48, Rgb48Be, Rgb48Le, Rgb48Ne};

use vstd::prelude::*;

verus! {

/// The largest value of a 16 bit channel.
pub const CHANNEL_MAX: u32 = 0xffff;

/// A colour that can be read as alpha premultiplied RGBA with 16 bits a
/// channel.
pub trait Color {
    /// The colour as alpha premultiplied red, green, blue and alpha, each
    /// between 0 and [`CHANNEL_MAX`].
    spec fn rgba(&self) -> (u32, u32, u32, u32);

    /// Return an alpha premultiplied color in RGBA 16 bits.
    ///
    /// Components are returned as native-endian values.
    fn as_rgba(&self) -> (c: (u32, u32, u32, u32))
        ensures
            c == self.rgba(),
            c.0 <= CHANNEL_MAX,
            c.1 <= CHANNEL_MAX,
            c.2 <= CHANNEL_MAX,
            c.3 <= CHANNEL_MAX,
    ;
}

/// A color which contains a zero value.
pub trait Zero: Color + Copy {
    /// The zero value of this color.
    spec fn spec_zero() -> Self;

    /// The zero value of this color: black.
    fn zero() -> (z: Self)
        ensures
            z == Self::spec_zero(),
            z.rgba().0 == 0,
            z.rgba().1 == 0,
            z.rgba().2 == 0,
    ;
}

/// Tag a pixel's channel value as big-endian.
#[derive(Copy, Clone, Eq, PartialEq, Debug, Structural)]
pub enum BigEndian {
    Tag,
}

/// Tag a pixel's channel value as little-endian.
#[derive(Copy, Clone, Eq, PartialEq, Debug, Structural)]
pub enum LittleEndian {
    Tag,
}

/// Tag a pixel's channel value as native-endian.
#[derive(Copy, Clone, Eq, PartialEq, Debug, Structural)]
pub enum NativeEndian {
    Tag,
}

/// Keeps the set of byte order tags closed.
pub trait EndiannessPrivate {

}

/// A byte order tag.
pub trait Endianness: EndiannessPrivate {

}

impl EndiannessPrivate for BigEndian {

}

impl EndiannessPrivate for LittleEndian {

}

impl EndiannessPrivate for NativeEndian {

}

impl<E: EndiannessPrivate> Endianness for E {

}

/// An 8 bit channel stretched to 16 bits: the byte repeated.
pub open spec fn widen8(v: u8) -> u32 {
    ((v as u32) * 0x101) as u32
}

/// The upper byte of a 16 bit channel.
pub open spec fn narrow16(v: u32) -> u8 {
    ((v / 0x100) % 0x100) as u8
}

/// Luminance of a colour, with 16 bits, from its 16 bit channels: the
/// weights are those of the JFIF specification, scaled to sum to 65536.
pub open spec fn luma16(r: u32, g: u32, b: u32) -> u16 {
    ((19595 * r + 38470 * g + 7471 * b + 0x8000) / 0x1_0000) as u16
}

/// Luminance of a colour, with 8 bits, from its 16 bit channels.
pub open spec fn luma8(r: u32, g: u32, b: u32) -> u8 {
    ((19595 * r + 38470 * g + 7471 * b + 0x8000) / 0x100_0000) as u8
}

pub proof fn lemma_widen8(v: u32)
    by (bit_vector)
    requires
        v <= 0xff,
    ensures
        (v | (v << 8)) == v * 0x101,
        (v | (v << 8)) <= 0xffff,
{
}

pub proof fn lemma_narrow16(v: u32)
    by (bit_vector)
    requires
        v <= 0xffff,
    ensures
        ((v >> 8) & 0xff) == (v / 0x100) % 0x100,
        ((v >> 8) & 0xff) <= 0xff,
        (v & 0xffff) == v,
{
}

pub proof fn lemma_luma_shift(s: u32)
    by (bit_vector)
    ensures
        (s >> 16) == s / 0x1_0000,
        (s >> 24) == s / 0x100_0000,
        (s >> 16) <= 0xffff,
        (s >> 24) <= 0xff,
{
}

/// Stretches an 8 bit channel to 16 bits.
pub(crate) fn widen(v: u8) -> (r: u32)
    ensures
        r == widen8(v),
        r <= CHANNEL_MAX,
{
    let v = v as u32;
    proof {
        lemma_widen8(v);
    }
    v | (v << 8)
}

/// Keeps the upper byte of a 16 bit channel.
pub(crate) fn narrow(v: u32) -> (r: u8)
    requires
        v <= CHANNEL_MAX,
    ensures
        r == narrow16(v),
{
    proof {
        lemma_narrow16(v);
    }
    ((v >> 8) & 0xff) as u8
}

} // verus!
