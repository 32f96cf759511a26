use std::marker::PhantomData;

use super::convert::ConvertFrom;
use super::{BigEndian, Color, Endianness, LittleEndian, NativeEndian, Zero, CHANNEL_MAX};
use super::lemma_narrow16;
use crate::byteorder::{
    be16, be64, from_be16, from_be64, from_le16, from_le64, le16, le64, lemma_order16_roundtrip, lemma_zero_order,
    swap_bytes16, swapped16, to_be16, to_le16,
};
use crate::specialized::Aye;
use vstd::prelude::*;
use vstd::std_specs::convert::{FromSpec, FromSpecImpl};

verus! {

/// Red, green, blue and alpha, not premultiplied, with 16 bits a channel.
///
/// The fields hold the channels as they lie in memory: read in the byte
/// order of the machine, they give the channel in the byte order `E`.
pub struct Nrgba64<E> {
    pub r: u16,
    pub g: u16,
    pub b: u16,
    pub a: u16,
    pub _endianness: PhantomData<E>,
}

impl<E> Clone for Nrgba64<E> {
    fn clone(&self) -> (c: Self)
        ensures
            c == *self,
    {
        Nrgba64 { r: self.r, g: self.g, b: self.b, a: self.a, _endianness: PhantomData }
    }
}

impl<E> Copy for Nrgba64<E> {

}

impl<E1: Endianness> Nrgba64<E1> {
    /// The same memory under another byte order tag.
    pub fn cast<E2: Endianness>(self) -> (c: Nrgba64<E2>)
        ensures
            c == (Nrgba64::<E2> {
                r: self.r,
                g: self.g,
                b: self.b,
                a: self.a,
                _endianness: PhantomData,
            }),
    {
        let Nrgba64 { r, g, b, a, .. } = self;
        Nrgba64 { r, g, b, a, _endianness: PhantomData }
    }
}

pub type Nrgba64Ne = Nrgba64<NativeEndian>;

pub type Nrgba64Be = Nrgba64<BigEndian>;

pub type Nrgba64Le = Nrgba64<LittleEndian>;

impl<E> Nrgba64<E> {
    /// The channels as they lie in memory.
    pub fn get_channels(self) -> (c: (u16, u16, u16, u16))
        ensures
            c == (self.r, self.g, self.b, self.a),
    {
        let Nrgba64 { r, g, b, a, .. } = self;
        (r, g, b, a)
    }
}

impl Nrgba64<NativeEndian> {
    /// The colour with the given channels.
    pub fn ne(r: u16, g: u16, b: u16, a: u16) -> (c: Self)
        ensures
            c == (Nrgba64::<NativeEndian> { r, g, b, a, _endianness: PhantomData }),
    {
        Self { r, g, b, a, _endianness: PhantomData }
    }

    /// The channels of the colour.
    pub open spec fn channels(self) -> (u16, u16, u16, u16) {
        (self.r, self.g, self.b, self.a)
    }

    /// The red channel.
    pub fn r(self) -> (v: u16)
        ensures
            v == self.r,
    {
        self.r
    }

    /// The green channel.
    pub fn g(self) -> (v: u16)
        ensures
            v == self.g,
    {
        self.g
    }

    /// The blue channel.
    pub fn b(self) -> (v: u16)
        ensures
            v == self.b,
    {
        self.b
    }

    /// The alpha channel.
    pub fn a(self) -> (v: u16)
        ensures
            v == self.a,
    {
        self.a
    }

    /// The colour with its red channel set to `value`.
    pub fn set_r(self, value: u16) -> (c: Self)
        ensures
            c == (Nrgba64::<NativeEndian> { r: value, g: self.g, b: self.b, a: self.a, _endianness: PhantomData }),
    {
        let mut c = self;
        c.r = value;
        c
    }

    /// The colour with its green channel set to `value`.
    pub fn set_g(self, value: u16) -> (c: Self)
        ensures
            c == (Nrgba64::<NativeEndian> { r: self.r, g: value, b: self.b, a: self.a, _endianness: PhantomData }),
    {
        let mut c = self;
        c.g = value;
        c
    }

    /// The colour with its blue channel set to `value`.
    pub fn set_b(self, value: u16) -> (c: Self)
        ensures
            c == (Nrgba64::<NativeEndian> { r: self.r, g: self.g, b: value, a: self.a, _endianness: PhantomData }),
    {
        let mut c = self;
        c.b = value;
        c
    }

    /// The colour with its alpha channel set to `value`.
    pub fn set_a(self, value: u16) -> (c: Self)
        ensures
            c == (Nrgba64::<NativeEndian> { r: self.r, g: self.g, b: self.b, a: value, _endianness: PhantomData }),
    {
        let mut c = self;
        c.a = value;
        c
    }
}

impl Nrgba64<LittleEndian> {
    /// The colour with the given channels.
    pub fn le(r: u16, g: u16, b: u16, a: u16) -> (c: Self)
        ensures
            c == (Nrgba64::<LittleEndian> {
                r: le16(r),
                g: le16(g),
                b: le16(b),
                a: le16(a),
                _endianness: PhantomData,
            }),
            c.channels() == (r, g, b, a),
    {
        proof {
            lemma_order16_roundtrip(r);
            lemma_order16_roundtrip(g);
            lemma_order16_roundtrip(b);
            lemma_order16_roundtrip(a);
        }
        Self { r: to_le16(r), g: to_le16(g), b: to_le16(b), a: to_le16(a), _endianness: PhantomData }
    }

    /// The channels of the colour.
    pub open spec fn channels(self) -> (u16, u16, u16, u16) {
        (le16(self.r), le16(self.g), le16(self.b), le16(self.a))
    }

    /// The red channel.
    pub fn r(self) -> (v: u16)
        ensures
            v == le16(self.r),
    {
        from_le16(self.r)
    }

    /// The green channel.
    pub fn g(self) -> (v: u16)
        ensures
            v == le16(self.g),
    {
        from_le16(self.g)
    }

    /// The blue channel.
    pub fn b(self) -> (v: u16)
        ensures
            v == le16(self.b),
    {
        from_le16(self.b)
    }

    /// The alpha channel.
    pub fn a(self) -> (v: u16)
        ensures
            v == le16(self.a),
    {
        from_le16(self.a)
    }

    /// The colour with its red channel set to `value`.
    pub fn set_r(self, value: u16) -> (c: Self)
        ensures
            c == (Nrgba64::<LittleEndian> { r: le16(value), g: self.g, b: self.b, a: self.a, _endianness: PhantomData }),
    {
        let mut c = self;
        c.r = to_le16(value);
        c
    }

    /// The colour with its green channel set to `value`.
    pub fn set_g(self, value: u16) -> (c: Self)
        ensures
            c == (Nrgba64::<LittleEndian> { r: self.r, g: le16(value), b: self.b, a: self.a, _endianness: PhantomData }),
    {
        let mut c = self;
        c.g = to_le16(value);
        c
    }

    /// The colour with its blue channel set to `value`.
    pub fn set_b(self, value: u16) -> (c: Self)
        ensures
            c == (Nrgba64::<LittleEndian> { r: self.r, g: self.g, b: le16(value), a: self.a, _endianness: PhantomData }),
    {
        let mut c = self;
        c.b = to_le16(value);
        c
    }

    /// The colour with its alpha channel set to `value`.
    pub fn set_a(self, value: u16) -> (c: Self)
        ensures
            c == (Nrgba64::<LittleEndian> { r: self.r, g: self.g, b: self.b, a: le16(value), _endianness: PhantomData }),
    {
        let mut c = self;
        c.a = to_le16(value);
        c
    }
}

impl Nrgba64<BigEndian> {
    /// The colour with the given channels.
    pub fn be(r: u16, g: u16, b: u16, a: u16) -> (c: Self)
        ensures
            c == (Nrgba64::<BigEndian> {
                r: be16(r),
                g: be16(g),
                b: be16(b),
                a: be16(a),
                _endianness: PhantomData,
            }),
            c.channels() == (r, g, b, a),
    {
        proof {
            lemma_order16_roundtrip(r);
            lemma_order16_roundtrip(g);
            lemma_order16_roundtrip(b);
            lemma_order16_roundtrip(a);
        }
        Self { r: to_be16(r), g: to_be16(g), b: to_be16(b), a: to_be16(a), _endianness: PhantomData }
    }

    /// The channels of the colour.
    pub open spec fn channels(self) -> (u16, u16, u16, u16) {
        (be16(self.r), be16(self.g), be16(self.b), be16(self.a))
    }

    /// The red channel.
    pub fn r(self) -> (v: u16)
        ensures
            v == be16(self.r),
    {
        from_be16(self.r)
    }

    /// The green channel.
    pub fn g(self) -> (v: u16)
        ensures
            v == be16(self.g),
    {
        from_be16(self.g)
    }

    /// The blue channel.
    pub fn b(self) -> (v: u16)
        ensures
            v == be16(self.b),
    {
        from_be16(self.b)
    }

    /// The alpha channel.
    pub fn a(self) -> (v: u16)
        ensures
            v == be16(self.a),
    {
        from_be16(self.a)
    }

    /// The colour with its red channel set to `value`.
    pub fn set_r(self, value: u16) -> (c: Self)
        ensures
            c == (Nrgba64::<BigEndian> { r: be16(value), g: self.g, b: self.b, a: self.a, _endianness: PhantomData }),
    {
        let mut c = self;
        c.r = to_be16(value);
        c
    }

    /// The colour with its green channel set to `value`.
    pub fn set_g(self, value: u16) -> (c: Self)
        ensures
            c == (Nrgba64::<BigEndian> { r: self.r, g: be16(value), b: self.b, a: self.a, _endianness: PhantomData }),
    {
        let mut c = self;
        c.g = to_be16(value);
        c
    }

    /// The colour with its blue channel set to `value`.
    pub fn set_b(self, value: u16) -> (c: Self)
        ensures
            c == (Nrgba64::<BigEndian> { r: self.r, g: self.g, b: be16(value), a: self.a, _endianness: PhantomData }),
    {
        let mut c = self;
        c.b = to_be16(value);
        c
    }

    /// The colour with its alpha channel set to `value`.
    pub fn set_a(self, value: u16) -> (c: Self)
        ensures
            c == (Nrgba64::<BigEndian> { r: self.r, g: self.g, b: self.b, a: be16(value), _endianness: PhantomData }),
    {
        let mut c = self;
        c.a = to_be16(value);
        c
    }
}

/// Channels multiplied by alpha, and alpha.
pub open spec fn premultiplied(r: u16, g: u16, b: u16, a: u16) -> (u32, u32, u32, u32) {
    (
        ((r as u32 * a as u32) / 0xffff) as u32,
        ((g as u32 * a as u32) / 0xffff) as u32,
        ((b as u32 * a as u32) / 0xffff) as u32,
        a as u32,
    )
}

proof fn lemma_premultiply_bound(c: u32, a: u32)
    by (nonlinear_arith)
    requires
        c <= 0xffff,
        a <= 0xffff,
    ensures
        c * a <= 0xffff * 0xffff,
        (c * a) / 0xffff <= 0xffff,
{
}

#[inline]
fn nrgba64_to_rgba(r: u16, g: u16, b: u16, a: u16) -> (c: (u32, u32, u32, u32))
    ensures
        c == premultiplied(r, g, b, a),
        c.0 <= CHANNEL_MAX,
        c.1 <= CHANNEL_MAX,
        c.2 <= CHANNEL_MAX,
        c.3 <= CHANNEL_MAX,
{
    let r = r as u32;
    let g = g as u32;
    let b = b as u32;
    let a = a as u32;
    proof {
        lemma_premultiply_bound(r, a);
        lemma_premultiply_bound(g, a);
        lemma_premultiply_bound(b, a);
    }

    let r = (r * a) / 0xffff;
    let g = (g * a) / 0xffff;
    let b = (b * a) / 0xffff;

    (r, g, b, a)
}

/// Black without alpha has no red, green or blue.
proof fn lemma_premultiplied_zero()
    ensures
        premultiplied(0, 0, 0, 0) == (0u32, 0u32, 0u32, 0u32),
{
    assert((0u16 as u32 * 0u16 as u32) == 0) by (nonlinear_arith);
}

impl Zero for Nrgba64<NativeEndian> {
    open spec fn spec_zero() -> Self {
        Nrgba64 { r: 0, g: 0, b: 0, a: 0, _endianness: PhantomData }
    }

    fn zero() -> (z: Self) {
        proof {
            lemma_premultiplied_zero();
        }
        Nrgba64 { r: 0, g: 0, b: 0, a: 0, _endianness: PhantomData }
    }
}

impl Zero for Nrgba64<BigEndian> {
    open spec fn spec_zero() -> Self {
        Nrgba64 { r: 0, g: 0, b: 0, a: 0, _endianness: PhantomData }
    }

    fn zero() -> (z: Self) {
        proof {
            lemma_zero_order();
            lemma_premultiplied_zero();
        }
        Nrgba64 { r: 0, g: 0, b: 0, a: 0, _endianness: PhantomData }
    }
}

impl Zero for Nrgba64<LittleEndian> {
    open spec fn spec_zero() -> Self {
        Nrgba64 { r: 0, g: 0, b: 0, a: 0, _endianness: PhantomData }
    }

    fn zero() -> (z: Self) {
        proof {
            lemma_zero_order();
            lemma_premultiplied_zero();
        }
        Nrgba64 { r: 0, g: 0, b: 0, a: 0, _endianness: PhantomData }
    }
}

impl Color for Nrgba64<NativeEndian> {
    open spec fn rgba(&self) -> (u32, u32, u32, u32) {
        premultiplied(self.r, self.g, self.b, self.a)
    }

    fn as_rgba(&self) -> (c: (u32, u32, u32, u32)) {
        nrgba64_to_rgba(self.r, self.g, self.b, self.a)
    }
}

impl Color for Nrgba64<BigEndian> {
    open spec fn rgba(&self) -> (u32, u32, u32, u32) {
        premultiplied(be16(self.r), be16(self.g), be16(self.b), be16(self.a))
    }

    fn as_rgba(&self) -> (c: (u32, u32, u32, u32)) {
        let r = from_be16(self.r);
        let g = from_be16(self.g);
        let b = from_be16(self.b);
        let a = from_be16(self.a);

        nrgba64_to_rgba(r, g, b, a)
    }
}

impl Color for Nrgba64<LittleEndian> {
    open spec fn rgba(&self) -> (u32, u32, u32, u32) {
        premultiplied(le16(self.r), le16(self.g), le16(self.b), le16(self.a))
    }

    fn as_rgba(&self) -> (c: (u32, u32, u32, u32)) {
        let r = from_le16(self.r);
        let g = from_le16(self.g);
        let b = from_le16(self.b);
        let a = from_le16(self.a);

        nrgba64_to_rgba(r, g, b, a)
    }
}

/// Four 16 bit values in one 64 bit value, the first in the lowest bits.
pub open spec fn pack64(r: u16, g: u16, b: u16, a: u16) -> u64 {
    (r as u64) | ((g as u64) << 16) | ((b as u64) << 32) | ((a as u64) << 48)
}

/// The four 16 bit values of a 64 bit value, from the lowest bits.
pub open spec fn unpack64(c: u64) -> (u16, u16, u16, u16) {
    (
        (c & 0xffff) as u16,
        ((c & 0xffff_0000) >> 16) as u16,
        ((c & 0xffff_0000_0000) >> 32) as u16,
        ((c & 0xffff_0000_0000_0000) >> 48) as u16,
    )
}

proof fn lemma_packed64_bits(r: u16, g: u16, b: u16, a: u16)
    by (bit_vector)
    ensures
        ({
            let c = (r as u64) | ((g as u64) << 16) | ((b as u64) << 32) | ((a as u64) << 48);
            &&& (c & 0xffff) as u16 == r
            &&& ((c & 0xffff_0000) >> 16) as u16 == g
            &&& ((c & 0xffff_0000_0000) >> 32) as u16 == b
            &&& ((c & 0xffff_0000_0000_0000) >> 48) as u16 == a
        }),
{
}

/// Unpacking what was packed gives the four values back.
pub proof fn lemma_unpack_pack(r: u16, g: u16, b: u16, a: u16)
    ensures
        unpack64(pack64(r, g, b, a)) == (r, g, b, a),
{
    lemma_packed64_bits(r, g, b, a);
}

/// Each of the four 16 bit parts of a 64 bit value fits in 16 bits.
pub proof fn lemma_parts_of_64(c: u64)
    by (bit_vector)
    ensures
        (c & 0xffff) <= 0xffff,
        ((c & 0xffff_0000) >> 16) <= 0xffff,
        ((c & 0xffff_0000_0000) >> 32) <= 0xffff,
        ((c & 0xffff_0000_0000_0000) >> 48) <= 0xffff,
{
}

impl<E1, E2> ConvertFrom<Nrgba64<E1>, Aye> for Nrgba64<E2> where
    E1: Endianness,
    E2: Endianness,
    Nrgba64<E1>: Color,
    Nrgba64<E2>: Color + From<u64>,
    u64: From<Nrgba64<E1>>,
 {
    open spec fn obeys_convert_spec() -> bool {
        <u64 as FromSpec<Nrgba64<E1>>>::obeys_from_spec() && <Nrgba64<E2> as FromSpec<
            u64,
        >>::obeys_from_spec()
    }

    open spec fn converted(c: Nrgba64<E1>) -> Nrgba64<E2> {
        <Nrgba64<E2> as FromSpec<u64>>::from_spec(<u64 as FromSpec<Nrgba64<E1>>>::from_spec(c))
    }

    fn convert_from(c: Nrgba64<E1>) -> (r: Nrgba64<E2>) {
        let c: u64 = u64::from(c);
        <Nrgba64<E2>>::from(c)
    }
}

impl<C: Color> ConvertFrom<C> for Nrgba64<NativeEndian> {
    open spec fn obeys_convert_spec() -> bool {
        true
    }

    open spec fn converted(c: C) -> Self {
        Nrgba64 {
            r: c.rgba().0 as u16,
            g: c.rgba().1 as u16,
            b: c.rgba().2 as u16,
            a: c.rgba().3 as u16,
            _endianness: PhantomData,
        }
    }

    fn convert_from(c: C) -> (n: Self) {
        let (r, g, b, a) = c.as_rgba();
        proof {
            lemma_narrow16(r);
            lemma_narrow16(g);
            lemma_narrow16(b);
            lemma_narrow16(a);
        }
        Nrgba64 {
            r: (r & 0xffff) as u16,
            g: (g & 0xffff) as u16,
            b: (b & 0xffff) as u16,
            a: (a & 0xffff) as u16,
            _endianness: PhantomData,
        }
    }
}

impl<C: Color> ConvertFrom<C> for Nrgba64<BigEndian> {
    open spec fn obeys_convert_spec() -> bool {
        true
    }

    open spec fn converted(c: C) -> Self {
        Nrgba64 {
            r: swapped16(c.rgba().0 as u16),
            g: swapped16(c.rgba().1 as u16),
            b: swapped16(c.rgba().2 as u16),
            a: swapped16(c.rgba().3 as u16),
            _endianness: PhantomData,
        }
    }

    fn convert_from(c: C) -> (n: Self) {
        let (r, g, b, a) = c.as_rgba();
        proof {
            lemma_narrow16(r);
            lemma_narrow16(g);
            lemma_narrow16(b);
            lemma_narrow16(a);
        }
        Nrgba64 {
            r: swap_bytes16((r & 0xffff) as u16),
            g: swap_bytes16((g & 0xffff) as u16),
            b: swap_bytes16((b & 0xffff) as u16),
            a: swap_bytes16((a & 0xffff) as u16),
            _endianness: PhantomData,
        }
    }
}

impl<C: Color> ConvertFrom<C> for Nrgba64<LittleEndian> {
    open spec fn obeys_convert_spec() -> bool {
        true
    }

    open spec fn converted(c: C) -> Self {
        Nrgba64 {
            r: swapped16(c.rgba().0 as u16),
            g: swapped16(c.rgba().1 as u16),
            b: swapped16(c.rgba().2 as u16),
            a: swapped16(c.rgba().3 as u16),
            _endianness: PhantomData,
        }
    }

    fn convert_from(c: C) -> (n: Self) {
        let (r, g, b, a) = c.as_rgba();
        proof {
            lemma_narrow16(r);
            lemma_narrow16(g);
            lemma_narrow16(b);
            lemma_narrow16(a);
        }
        Nrgba64 {
            r: swap_bytes16((r & 0xffff) as u16),
            g: swap_bytes16((g & 0xffff) as u16),
            b: swap_bytes16((b & 0xffff) as u16),
            a: swap_bytes16((a & 0xffff) as u16),
            _endianness: PhantomData,
        }
    }
}

impl From<Nrgba64<NativeEndian>> for u64 {
    fn from(c: Nrgba64<NativeEndian>) -> (v: u64) {
        let r = c.r as u64;
        let g = (c.g as u64) << 16;
        let b = (c.b as u64) << (16 * 2);
        let a = (c.a as u64) << (16 * 3);
        r | g | b | a
    }
}

impl FromSpecImpl<Nrgba64<NativeEndian>> for u64 {
    open spec fn obeys_from_spec() -> bool {
        true
    }

    open spec fn from_spec(c: Nrgba64<NativeEndian>) -> u64 {
        pack64(c.r, c.g, c.b, c.a)
    }
}

impl From<Nrgba64<BigEndian>> for u64 {
    fn from(c: Nrgba64<BigEndian>) -> (v: u64) {
        let r = from_be64(c.r as u64);
        let g = from_be64((c.g as u64) << 16);
        let b = from_be64((c.b as u64) << (16 * 2));
        let a = from_be64((c.a as u64) << (16 * 3));
        r | g | b | a
    }
}

impl FromSpecImpl<Nrgba64<BigEndian>> for u64 {
    open spec fn obeys_from_spec() -> bool {
        true
    }

    open spec fn from_spec(c: Nrgba64<BigEndian>) -> u64 {
        be64(c.r as u64) | be64((c.g as u64) << 16) | be64((c.b as u64) << 32) | be64(
            (c.a as u64) << 48,
        )
    }
}

impl From<Nrgba64<LittleEndian>> for u64 {
    fn from(c: Nrgba64<LittleEndian>) -> (v: u64) {
        let r = from_le64(c.r as u64);
        let g = from_le64((c.g as u64) << 16);
        let b = from_le64((c.b as u64) << (16 * 2));
        let a = from_le64((c.a as u64) << (16 * 3));
        r | g | b | a
    }
}

impl FromSpecImpl<Nrgba64<LittleEndian>> for u64 {
    open spec fn obeys_from_spec() -> bool {
        true
    }

    open spec fn from_spec(c: Nrgba64<LittleEndian>) -> u64 {
        le64(c.r as u64) | le64((c.g as u64) << 16) | le64((c.b as u64) << 32) | le64(
            (c.a as u64) << 48,
        )
    }
}

fn get_components(c: u64) -> (v: (u16, u16, u16, u16))
    ensures
        v == unpack64(c),
{
    proof {
        lemma_parts_of_64(c);
    }
    let r = (c & 0xffff) as u16;
    let g = ((c & 0xffff0000) >> 16) as u16;
    let b = ((c & 0xffff00000000) >> 32) as u16;
    let a = ((c & 0xffff000000000000) >> 48) as u16;
    (r, g, b, a)
}

impl From<u64> for Nrgba64<NativeEndian> {
    fn from(c: u64) -> (n: Self) {
        let (r, g, b, a) = get_components(c);
        Self { r, g, b, a, _endianness: PhantomData }
    }
}

impl FromSpecImpl<u64> for Nrgba64<NativeEndian> {
    open spec fn obeys_from_spec() -> bool {
        true
    }

    open spec fn from_spec(c: u64) -> Self {
        Nrgba64 {
            r: unpack64(c).0,
            g: unpack64(c).1,
            b: unpack64(c).2,
            a: unpack64(c).3,
            _endianness: PhantomData,
        }
    }
}

impl From<u64> for Nrgba64<BigEndian> {
    fn from(c: u64) -> (n: Self) {
        let (r, g, b, a) = get_components(c);
        Self { r: to_be16(r), g: to_be16(g), b: to_be16(b), a: to_be16(a), _endianness: PhantomData }
    }
}

impl FromSpecImpl<u64> for Nrgba64<BigEndian> {
    open spec fn obeys_from_spec() -> bool {
        true
    }

    open spec fn from_spec(c: u64) -> Self {
        Nrgba64 {
            r: be16(unpack64(c).0),
            g: be16(unpack64(c).1),
            b: be16(unpack64(c).2),
            a: be16(unpack64(c).3),
            _endianness: PhantomData,
        }
    }
}

impl From<u64> for Nrgba64<LittleEndian> {
    fn from(c: u64) -> (n: Self) {
        let (r, g, b, a) = get_components(c);
        Self { r: to_le16(r), g: to_le16(g), b: to_le16(b), a: to_le16(a), _endianness: PhantomData }
    }
}

impl FromSpecImpl<u64> for Nrgba64<LittleEndian> {
    open spec fn obeys_from_spec() -> bool {
        true
    }

    open spec fn from_spec(c: u64) -> Self {
        Nrgba64 {
            r: le16(unpack64(c).0),
            g: le16(unpack64(c).1),
            b: le16(unpack64(c).2),
            a: le16(unpack64(c).3),
            _endianness: PhantomData,
        }
    }
}

} // verus!
