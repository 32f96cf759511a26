use std::marker::PhantomData;

use super::convert::ConvertFrom;
use super::nrgba64::lemma_parts_of_64;
use super::{lemma_narrow16, BigEndian, Color, Endianness, LittleEndian, NativeEndian, CHANNEL_MAX};
use crate::byteorder::{
    be16, be64, from_be16, from_be64, from_le16, from_le64, le16, le64, lemma_order16_roundtrip,
    to_be16, to_le16,
};
use crate::specialized::Aye;
use vstd::prelude::*;
use vstd::std_specs::convert::{FromSpec, FromSpecImpl};

verus! {

/// Red, green and blue with 16 bits a channel.
///
/// The fields hold the channels as they lie in memory: read in the byte
/// order of the machine, they give the channel in the byte order `E`.
pub struct Rgb48<E> {
    pub r: u16,
    pub g: u16,
    pub b: u16,
    pub _endianness: PhantomData<E>,
}

impl<E> Clone for Rgb48<E> {
    fn clone(&self) -> (c: Self)
        ensures
            c == *self,
    {
        Rgb48 { r: self.r, g: self.g, b: self.b, _endianness: PhantomData }
    }
}

impl<E> Copy for Rgb48<E> {

}

impl<E1: Endianness> Rgb48<E1> {
    /// The same memory under another byte order tag.
    pub fn cast<E2: Endianness>(self) -> (c: Rgb48<E2>)
        ensures
            c == (Rgb48::<E2> { r: self.r, g: self.g, b: self.b, _endianness: PhantomData }),
    {
        let Rgb48 { r, g, b, .. } = self;
        Rgb48 { r, g, b, _endianness: PhantomData }
    }
}

pub type Rgb48Ne = Rgb48<NativeEndian>;

pub type Rgb48Be = Rgb48<BigEndian>;

pub type Rgb48Le = Rgb48<LittleEndian>;

impl Rgb48<NativeEndian> {
    /// The colour with the given channels.
    pub fn ne(r: u16, g: u16, b: u16) -> (c: Self)
        ensures
            c == (Rgb48::<NativeEndian> { r, g, b, _endianness: PhantomData }),
            c.channels() == (r, g, b),
    {
        Self { r, g, b, _endianness: PhantomData }
    }

    /// The channels of the colour.
    pub open spec fn channels(self) -> (u16, u16, u16) {
        (self.r, self.g, self.b)
    }

    /// The red channel.
    pub fn r(self) -> (v: u16)
        ensures
            v == self.r,
    {
        self.r
    }

    /// The green channel.
    pub fn g(self) -> (v: u16)
        ensures
            v == self.g,
    {
        self.g
    }

    /// The blue channel.
    pub fn b(self) -> (v: u16)
        ensures
            v == self.b,
    {
        self.b
    }

    /// The colour with its red channel set to `value`.
    pub fn set_r(self, value: u16) -> (c: Self)
        ensures
            c == (Rgb48::<NativeEndian> { r: value, g: self.g, b: self.b, _endianness: PhantomData }),
    {
        let mut c = self;
        c.r = value;
        c
    }

    /// The colour with its green channel set to `value`.
    pub fn set_g(self, value: u16) -> (c: Self)
        ensures
            c == (Rgb48::<NativeEndian> { r: self.r, g: value, b: self.b, _endianness: PhantomData }),
    {
        let mut c = self;
        c.g = value;
        c
    }

    /// The colour with its blue channel set to `value`.
    pub fn set_b(self, value: u16) -> (c: Self)
        ensures
            c == (Rgb48::<NativeEndian> { r: self.r, g: self.g, b: value, _endianness: PhantomData }),
    {
        let mut c = self;
        c.b = value;
        c
    }
}

impl Rgb48<LittleEndian> {
    /// The colour with the given channels.
    pub fn le(r: u16, g: u16, b: u16) -> (c: Self)
        ensures
            c == (Rgb48::<LittleEndian> { r: le16(r), g: le16(g), b: le16(b), _endianness: PhantomData }),
            c.channels() == (r, g, b),
    {
        proof {
            lemma_order16_roundtrip(r);
            lemma_order16_roundtrip(g);
            lemma_order16_roundtrip(b);
        }
        Self { r: to_le16(r), g: to_le16(g), b: to_le16(b), _endianness: PhantomData }
    }

    /// The channels of the colour.
    pub open spec fn channels(self) -> (u16, u16, u16) {
        (le16(self.r), le16(self.g), le16(self.b))
    }

    /// The red channel.
    pub fn r(self) -> (v: u16)
        ensures
            v == le16(self.r),
    {
        from_le16(self.r)
    }

    /// The green channel.
    pub fn g(self) -> (v: u16)
        ensures
            v == le16(self.g),
    {
        from_le16(self.g)
    }

    /// The blue channel.
    pub fn b(self) -> (v: u16)
        ensures
            v == le16(self.b),
    {
        from_le16(self.b)
    }

    /// The colour with its red channel set to `value`.
    pub fn set_r(self, value: u16) -> (c: Self)
        ensures
            c == (Rgb48::<LittleEndian> { r: le16(value), g: self.g, b: self.b, _endianness: PhantomData }),
    {
        let mut c = self;
        c.r = to_le16(value);
        c
    }

    /// The colour with its green channel set to `value`.
    pub fn set_g(self, value: u16) -> (c: Self)
        ensures
            c == (Rgb48::<LittleEndian> { r: self.r, g: le16(value), b: self.b, _endianness: PhantomData }),
    {
        let mut c = self;
        c.g = to_le16(value);
        c
    }

    /// The colour with its blue channel set to `value`.
    pub fn set_b(self, value: u16) -> (c: Self)
        ensures
            c == (Rgb48::<LittleEndian> { r: self.r, g: self.g, b: le16(value), _endianness: PhantomData }),
    {
        let mut c = self;
        c.b = to_le16(value);
        c
    }
}

impl Rgb48<BigEndian> {
    /// The colour with the given channels.
    pub fn be(r: u16, g: u16, b: u16) -> (c: Self)
        ensures
            c == (Rgb48::<BigEndian> { r: be16(r), g: be16(g), b: be16(b), _endianness: PhantomData }),
            c.channels() == (r, g, b),
    {
        proof {
            lemma_order16_roundtrip(r);
            lemma_order16_roundtrip(g);
            lemma_order16_roundtrip(b);
        }
        Self { r: to_be16(r), g: to_be16(g), b: to_be16(b), _endianness: PhantomData }
    }

    /// The channels of the colour.
    pub open spec fn channels(self) -> (u16, u16, u16) {
        (be16(self.r), be16(self.g), be16(self.b))
    }

    /// The red channel.
    pub fn r(self) -> (v: u16)
        ensures
            v == be16(self.r),
    {
        from_be16(self.r)
    }

    /// The green channel.
    pub fn g(self) -> (v: u16)
        ensures
            v == be16(self.g),
    {
        from_be16(self.g)
    }

    /// The blue channel.
    pub fn b(self) -> (v: u16)
        ensures
            v == be16(self.b),
    {
        from_be16(self.b)
    }

    /// The colour with its red channel set to `value`.
    pub fn set_r(self, value: u16) -> (c: Self)
        ensures
            c == (Rgb48::<BigEndian> { r: be16(value), g: self.g, b: self.b, _endianness: PhantomData }),
    {
        let mut c = self;
        c.r = to_be16(value);
        c
    }

    /// The colour with its green channel set to `value`.
    pub fn set_g(self, value: u16) -> (c: Self)
        ensures
            c == (Rgb48::<BigEndian> { r: self.r, g: be16(value), b: self.b, _endianness: PhantomData }),
    {
        let mut c = self;
        c.g = to_be16(value);
        c
    }

    /// The colour with its blue channel set to `value`.
    pub fn set_b(self, value: u16) -> (c: Self)
        ensures
            c == (Rgb48::<BigEndian> { r: self.r, g: self.g, b: be16(value), _endianness: PhantomData }),
    {
        let mut c = self;
        c.b = to_be16(value);
        c
    }
}

impl<E> Rgb48<E> {
    /// The channels as they lie in memory.
    pub fn get_channels(self) -> (c: (u16, u16, u16))
        ensures
            c == (self.r, self.g, self.b),
    {
        let Rgb48 { r, g, b, .. } = self;
        (r, g, b)
    }
}

/// Red, green and blue with full alpha.
pub open spec fn opaque_rgba(r: u16, g: u16, b: u16) -> (u32, u32, u32, u32) {
    (r as u32, g as u32, b as u32, CHANNEL_MAX)
}

#[inline]
fn rgb48_to_rgba(r: u16, g: u16, b: u16) -> (c: (u32, u32, u32, u32))
    ensures
        c == opaque_rgba(r, g, b),
{
    let r = r as u32;
    let g = g as u32;
    let b = b as u32;
    let a = 0xffff;

    (r, g, b, a)
}

impl Color for Rgb48<NativeEndian> {
    open spec fn rgba(&self) -> (u32, u32, u32, u32) {
        opaque_rgba(self.r, self.g, self.b)
    }

    fn as_rgba(&self) -> (c: (u32, u32, u32, u32)) {
        rgb48_to_rgba(self.r, self.g, self.b)
    }
}

impl Color for Rgb48<BigEndian> {
    open spec fn rgba(&self) -> (u32, u32, u32, u32) {
        opaque_rgba(be16(self.r), be16(self.g), be16(self.b))
    }

    fn as_rgba(&self) -> (c: (u32, u32, u32, u32)) {
        let r = from_be16(self.r);
        let g = from_be16(self.g);
        let b = from_be16(self.b);

        rgb48_to_rgba(r, g, b)
    }
}

impl Color for Rgb48<LittleEndian> {
    open spec fn rgba(&self) -> (u32, u32, u32, u32) {
        opaque_rgba(le16(self.r), le16(self.g), le16(self.b))
    }

    fn as_rgba(&self) -> (c: (u32, u32, u32, u32)) {
        let r = from_le16(self.r);
        let g = from_le16(self.g);
        let b = from_le16(self.b);

        rgb48_to_rgba(r, g, b)
    }
}

impl<E1, E2> ConvertFrom<Rgb48<E1>, Aye> for Rgb48<E2> where
    E1: Endianness,
    E2: Endianness,
    Rgb48<E1>: Color,
    Rgb48<E2>: Color + From<u64>,
    u64: From<Rgb48<E1>>,
 {
    open spec fn obeys_convert_spec() -> bool {
        <u64 as FromSpec<Rgb48<E1>>>::obeys_from_spec() && <Rgb48<E2> as FromSpec<
            u64,
        >>::obeys_from_spec()
    }

    open spec fn converted(c: Rgb48<E1>) -> Rgb48<E2> {
        <Rgb48<E2> as FromSpec<u64>>::from_spec(<u64 as FromSpec<Rgb48<E1>>>::from_spec(c))
    }

    fn convert_from(c: Rgb48<E1>) -> (r: Rgb48<E2>) {
        let c: u64 = u64::from(c);
        <Rgb48<E2>>::from(c)
    }
}

/// The lower 16 bits of the red, green and blue of a colour.
fn channels16<C: Color>(c: C) -> (v: (u16, u16, u16))
    ensures
        v == (c.rgba().0 as u16, c.rgba().1 as u16, c.rgba().2 as u16),
{
    let (r, g, b, _) = c.as_rgba();
    proof {
        lemma_narrow16(r);
        lemma_narrow16(g);
        lemma_narrow16(b);
    }
    ((r & 0xffff) as u16, (g & 0xffff) as u16, (b & 0xffff) as u16)
}

impl<C: Color> ConvertFrom<C> for Rgb48<NativeEndian> {
    open spec fn obeys_convert_spec() -> bool {
        true
    }

    open spec fn converted(c: C) -> Self {
        Rgb48 {
            r: c.rgba().0 as u16,
            g: c.rgba().1 as u16,
            b: c.rgba().2 as u16,
            _endianness: PhantomData,
        }
    }

    fn convert_from(c: C) -> (n: Self) {
        let (r, g, b) = channels16(c);
        Rgb48 { r, g, b, _endianness: PhantomData }
    }
}

impl<C: Color> ConvertFrom<C> for Rgb48<BigEndian> {
    open spec fn obeys_convert_spec() -> bool {
        true
    }

    open spec fn converted(c: C) -> Self {
        Rgb48 {
            r: be16(c.rgba().0 as u16),
            g: be16(c.rgba().1 as u16),
            b: be16(c.rgba().2 as u16),
            _endianness: PhantomData,
        }
    }

    fn convert_from(c: C) -> (n: Self) {
        let (r, g, b) = channels16(c);
        Rgb48 { r: to_be16(r), g: to_be16(g), b: to_be16(b), _endianness: PhantomData }
    }
}

impl<C: Color> ConvertFrom<C> for Rgb48<LittleEndian> {
    open spec fn obeys_convert_spec() -> bool {
        true
    }

    open spec fn converted(c: C) -> Self {
        Rgb48 {
            r: le16(c.rgba().0 as u16),
            g: le16(c.rgba().1 as u16),
            b: le16(c.rgba().2 as u16),
            _endianness: PhantomData,
        }
    }

    fn convert_from(c: C) -> (n: Self) {
        let (r, g, b) = channels16(c);
        Rgb48 { r: to_le16(r), g: to_le16(g), b: to_le16(b), _endianness: PhantomData }
    }
}

/// The three 16 bit values of a 64 bit value, from the lowest bits.
pub open spec fn unpack48(c: u64) -> (u16, u16, u16) {
    (
        (c & 0xffff) as u16,
        ((c & 0xffff_0000) >> 16) as u16,
        ((c & 0xffff_0000_0000) >> 32) as u16,
    )
}

fn get_components(c: u64) -> (v: (u16, u16, u16))
    ensures
        v == unpack48(c),
{
    proof {
        lemma_parts_of_64(c);
    }
    let r = (c & 0xffff) as u16;
    let g = ((c & 0xffff0000) >> 16) as u16;
    let b = ((c & 0xffff00000000) >> 32) as u16;
    (r, g, b)
}

impl From<Rgb48<NativeEndian>> for u64 {
    fn from(c: Rgb48<NativeEndian>) -> (v: u64) {
        let r = c.r as u64;
        let g = (c.g as u64) << 16;
        let b = (c.b as u64) << (16 * 2);
        r | g | b | 0xffff
    }
}

impl FromSpecImpl<Rgb48<NativeEndian>> for u64 {
    open spec fn obeys_from_spec() -> bool {
        true
    }

    open spec fn from_spec(c: Rgb48<NativeEndian>) -> u64 {
        (c.r as u64) | ((c.g as u64) << 16) | ((c.b as u64) << 32) | 0xffff
    }
}

impl From<u64> for Rgb48<NativeEndian> {
    fn from(c: u64) -> (n: Self) {
        let (r, g, b) = get_components(c);
        Self { r, g, b, _endianness: PhantomData }
    }
}

impl FromSpecImpl<u64> for Rgb48<NativeEndian> {
    open spec fn obeys_from_spec() -> bool {
        true
    }

    open spec fn from_spec(c: u64) -> Self {
        Rgb48 { r: unpack48(c).0, g: unpack48(c).1, b: unpack48(c).2, _endianness: PhantomData }
    }
}

impl From<Rgb48<BigEndian>> for u64 {
    fn from(c: Rgb48<BigEndian>) -> (v: u64) {
        let r = from_be64(c.r as u64);
        let g = from_be64((c.g as u64) << 16);
        let b = from_be64((c.b as u64) << (16 * 2));
        r | g | b | 0xffff
    }
}

impl FromSpecImpl<Rgb48<BigEndian>> for u64 {
    open spec fn obeys_from_spec() -> bool {
        true
    }

    open spec fn from_spec(c: Rgb48<BigEndian>) -> u64 {
        be64(c.r as u64) | be64((c.g as u64) << 16) | be64((c.b as u64) << 32) | 0xffff
    }
}

impl From<u64> for Rgb48<BigEndian> {
    fn from(c: u64) -> (n: Self) {
        let (r, g, b) = get_components(c);
        Self { r: to_be16(r), g: to_be16(g), b: to_be16(b), _endianness: PhantomData }
    }
}

impl FromSpecImpl<u64> for Rgb48<BigEndian> {
    open spec fn obeys_from_spec() -> bool {
        true
    }

    open spec fn from_spec(c: u64) -> Self {
        Rgb48 {
            r: be16(unpack48(c).0),
            g: be16(unpack48(c).1),
            b: be16(unpack48(c).2),
            _endianness: PhantomData,
        }
    }
}

impl From<Rgb48<LittleEndian>> for u64 {
    fn from(c: Rgb48<LittleEndian>) -> (v: u64) {
        let r = from_le64(c.r as u64);
        let g = from_le64((c.g as u64) << 16);
        let b = from_le64((c.b as u64) << (16 * 2));
        r | g | b | 0xffff
    }
}

impl FromSpecImpl<Rgb48<LittleEndian>> for u64 {
    open spec fn obeys_from_spec() -> bool {
        true
    }

    open spec fn from_spec(c: Rgb48<LittleEndian>) -> u64 {
        le64(c.r as u64) | le64((c.g as u64) << 16) | le64((c.b as u64) << 32) | 0xffff
    }
}

impl From<u64> for Rgb48<LittleEndian> {
    fn from(c: u64) -> (n: Self) {
        let (r, g, b) = get_components(c);
        Self { r: to_le16(r), g: to_le16(g), b: to_le16(b), _endianness: PhantomData }
    }
}

impl FromSpecImpl<u64> for Rgb48<LittleEndian> {
    open spec fn obeys_from_spec() -> bool {
        true
    }

    open spec fn from_spec(c: u64) -> Self {
        Rgb48 {
            r: le16(unpack48(c).0),
            g: le16(unpack48(c).1),
            b: le16(unpack48(c).2),
            _endianness: PhantomData,
        }
    }
}

} // verus!
