use std::marker::PhantomData;

use super::convert::ConvertFrom;
use super::{
    lemma_luma_shift, luma16, BigEndian, Color, Endianness, LittleEndian, NativeEndian, Zero,
    CHANNEL_MAX,
};
use crate::byteorder::{
    be16, from_be16, from_le16, le16, lemma_order16_roundtrip, lemma_zero_order, to_be16, to_le16,
};
use crate::specialized::Aye;
use vstd::prelude::*;
use vstd::std_specs::convert::{FromSpec, FromSpecImpl};

verus! {

/// A shade of gray with 16 bits.
///
/// The field holds the channel as it lies in memory: read in the byte order
/// of the machine, it gives the channel in the byte order `E`.
pub struct Gray16<E> {
    pub y: u16,
    pub _endianness: PhantomData<E>,
}

impl<E> Clone for Gray16<E> {
    fn clone(&self) -> (c: Self)
        ensures
            c == *self,
    {
        Gray16 { y: self.y, _endianness: PhantomData }
    }
}

impl<E> Copy for Gray16<E> {

}

impl<E1: Endianness> Gray16<E1> {
    /// The same memory under another byte order tag.
    pub fn cast<E2: Endianness>(self) -> (c: Gray16<E2>)
        ensures
            c == (Gray16::<E2> { y: self.y, _endianness: PhantomData }),
    {
        let Gray16 { y, .. } = self;
        Gray16 { y, _endianness: PhantomData }
    }
}

pub type Gray16Ne = Gray16<NativeEndian>;

pub type Gray16Be = Gray16<BigEndian>;

pub type Gray16Le = Gray16<LittleEndian>;

impl Gray16<NativeEndian> {
    /// The shade with the given luminance.
    pub fn ne(y: u16) -> (c: Self)
        ensures
            c == (Gray16::<NativeEndian> { y, _endianness: PhantomData }),
            c.channels() == y,
    {
        Self { y, _endianness: PhantomData }
    }

    /// The luminance of the shade.
    pub open spec fn channels(self) -> u16 {
        self.y
    }

    /// The luminance of the shade.
    pub fn y(self) -> (v: u16)
        ensures
            v == self.y,
    {
        self.y
    }

    /// The shade with the luminance `value`.
    pub fn set_y(self, value: u16) -> (c: Self)
        ensures
            c == (Gray16::<NativeEndian> { y: value, _endianness: PhantomData }),
    {
        let mut c = self;
        c.y = value;
        c
    }
}

impl Gray16<LittleEndian> {
    /// The shade with the given luminance.
    pub fn le(y: u16) -> (c: Self)
        ensures
            c == (Gray16::<LittleEndian> { y: le16(y), _endianness: PhantomData }),
            c.channels() == y,
    {
        proof {
            lemma_order16_roundtrip(y);
        }
        Self { y: to_le16(y), _endianness: PhantomData }
    }

    /// The luminance of the shade.
    pub open spec fn channels(self) -> u16 {
        le16(self.y)
    }

    /// The luminance of the shade.
    pub fn y(self) -> (v: u16)
        ensures
            v == le16(self.y),
    {
        from_le16(self.y)
    }

    /// The shade with the luminance `value`.
    pub fn set_y(self, value: u16) -> (c: Self)
        ensures
            c == (Gray16::<LittleEndian> { y: le16(value), _endianness: PhantomData }),
    {
        let mut c = self;
        c.y = to_le16(value);
        c
    }
}

impl Gray16<BigEndian> {
    /// The shade with the given luminance.
    pub fn be(y: u16) -> (c: Self)
        ensures
            c == (Gray16::<BigEndian> { y: be16(y), _endianness: PhantomData }),
            c.channels() == y,
    {
        proof {
            lemma_order16_roundtrip(y);
        }
        Self { y: to_be16(y), _endianness: PhantomData }
    }

    /// The luminance of the shade.
    pub open spec fn channels(self) -> u16 {
        be16(self.y)
    }

    /// The luminance of the shade.
    pub fn y(self) -> (v: u16)
        ensures
            v == be16(self.y),
    {
        from_be16(self.y)
    }

    /// The shade with the luminance `value`.
    pub fn set_y(self, value: u16) -> (c: Self)
        ensures
            c == (Gray16::<BigEndian> { y: be16(value), _endianness: PhantomData }),
    {
        let mut c = self;
        c.y = to_be16(value);
        c
    }
}

/// A shade of gray as red, green, blue and alpha.
pub open spec fn gray_rgba(y: u16) -> (u32, u32, u32, u32) {
    (y as u32, y as u32, y as u32, CHANNEL_MAX)
}

#[inline]
fn gray16_to_rgba(y: u16) -> (c: (u32, u32, u32, u32))
    ensures
        c == gray_rgba(y),
{
    let y = y as u32;

    let r = y;
    let g = y;
    let b = y;
    let a = 0xffff;

    (r, g, b, a)
}

impl Zero for Gray16<NativeEndian> {
    open spec fn spec_zero() -> Self {
        Gray16 { y: 0, _endianness: PhantomData }
    }

    fn zero() -> (z: Self) {
        Gray16 { y: 0, _endianness: PhantomData }
    }
}

impl Zero for Gray16<BigEndian> {
    open spec fn spec_zero() -> Self {
        Gray16 { y: 0, _endianness: PhantomData }
    }

    fn zero() -> (z: Self) {
        proof {
            lemma_zero_order();
        }
        Gray16 { y: 0, _endianness: PhantomData }
    }
}

impl Zero for Gray16<LittleEndian> {
    open spec fn spec_zero() -> Self {
        Gray16 { y: 0, _endianness: PhantomData }
    }

    fn zero() -> (z: Self) {
        proof {
            lemma_zero_order();
        }
        Gray16 { y: 0, _endianness: PhantomData }
    }
}

impl Color for Gray16<NativeEndian> {
    open spec fn rgba(&self) -> (u32, u32, u32, u32) {
        gray_rgba(self.y)
    }

    fn as_rgba(&self) -> (c: (u32, u32, u32, u32)) {
        gray16_to_rgba(self.y)
    }
}

impl Color for Gray16<BigEndian> {
    open spec fn rgba(&self) -> (u32, u32, u32, u32) {
        gray_rgba(be16(self.y))
    }

    fn as_rgba(&self) -> (c: (u32, u32, u32, u32)) {
        gray16_to_rgba(from_be16(self.y))
    }
}

impl Color for Gray16<LittleEndian> {
    open spec fn rgba(&self) -> (u32, u32, u32, u32) {
        gray_rgba(le16(self.y))
    }

    fn as_rgba(&self) -> (c: (u32, u32, u32, u32)) {
        gray16_to_rgba(from_le16(self.y))
    }
}

impl<E1, E2> ConvertFrom<Gray16<E1>, Aye> for Gray16<E2> where
    E1: Endianness,
    E2: Endianness,
    Gray16<E1>: Color,
    Gray16<E2>: Color + From<u16>,
    u16: From<Gray16<E1>>,
 {
    open spec fn obeys_convert_spec() -> bool {
        <u16 as FromSpec<Gray16<E1>>>::obeys_from_spec() && <Gray16<E2> as FromSpec<
            u16,
        >>::obeys_from_spec()
    }

    open spec fn converted(c: Gray16<E1>) -> Gray16<E2> {
        <Gray16<E2> as FromSpec<u16>>::from_spec(<u16 as FromSpec<Gray16<E1>>>::from_spec(c))
    }

    fn convert_from(c: Gray16<E1>) -> (r: Gray16<E2>) {
        let c: u16 = u16::from(c);
        <Gray16<E2>>::from(c)
    }
}

/// Luminance of a colour, with 16 bits.
fn luminance<C: Color>(c: C) -> (y: u16)
    ensures
        y == luma16(c.rgba().0, c.rgba().1, c.rgba().2),
{
    let (r, g, b, _) = c.as_rgba();
    let s: u32 = 19595 * r + 38470 * g + 7471 * b + 0x8000;
    proof {
        lemma_luma_shift(s);
    }
    (s >> 16) as u16
}

impl<C: Color> ConvertFrom<C> for Gray16<NativeEndian> {
    open spec fn obeys_convert_spec() -> bool {
        true
    }

    open spec fn converted(c: C) -> Self {
        Gray16 { y: luma16(c.rgba().0, c.rgba().1, c.rgba().2), _endianness: PhantomData }
    }

    fn convert_from(c: C) -> (n: Self) {
        let y = luminance(c);
        Gray16 { y, _endianness: PhantomData }
    }
}

impl<C: Color> ConvertFrom<C> for Gray16<BigEndian> {
    open spec fn obeys_convert_spec() -> bool {
        true
    }

    open spec fn converted(c: C) -> Self {
        Gray16 { y: be16(luma16(c.rgba().0, c.rgba().1, c.rgba().2)), _endianness: PhantomData }
    }

    fn convert_from(c: C) -> (n: Self) {
        let y = to_be16(luminance(c));
        Gray16 { y, _endianness: PhantomData }
    }
}

impl<C: Color> ConvertFrom<C> for Gray16<LittleEndian> {
    open spec fn obeys_convert_spec() -> bool {
        true
    }

    open spec fn converted(c: C) -> Self {
        Gray16 { y: le16(luma16(c.rgba().0, c.rgba().1, c.rgba().2)), _endianness: PhantomData }
    }

    fn convert_from(c: C) -> (n: Self) {
        let y = to_le16(luminance(c));
        Gray16 { y, _endianness: PhantomData }
    }
}

impl From<Gray16<NativeEndian>> for u16 {
    fn from(c: Gray16<NativeEndian>) -> (v: u16) {
        c.y
    }
}

impl FromSpecImpl<Gray16<NativeEndian>> for u16 {
    open spec fn obeys_from_spec() -> bool {
        true
    }

    open spec fn from_spec(c: Gray16<NativeEndian>) -> u16 {
        c.y
    }
}

impl From<u16> for Gray16<NativeEndian> {
    fn from(c: u16) -> (n: Self) {
        Self { y: c, _endianness: PhantomData }
    }
}

impl FromSpecImpl<u16> for Gray16<NativeEndian> {
    open spec fn obeys_from_spec() -> bool {
        true
    }

    open spec fn from_spec(c: u16) -> Self {
        Gray16 { y: c, _endianness: PhantomData }
    }
}

impl From<Gray16<BigEndian>> for u16 {
    fn from(c: Gray16<BigEndian>) -> (v: u16) {
        from_be16(c.y)
    }
}

impl FromSpecImpl<Gray16<BigEndian>> for u16 {
    open spec fn obeys_from_spec() -> bool {
        true
    }

    open spec fn from_spec(c: Gray16<BigEndian>) -> u16 {
        be16(c.y)
    }
}

impl From<u16> for Gray16<BigEndian> {
    fn from(c: u16) -> (n: Self) {
        Self { y: to_be16(c), _endianness: PhantomData }
    }
}

impl FromSpecImpl<u16> for Gray16<BigEndian> {
    open spec fn obeys_from_spec() -> bool {
        true
    }

    open spec fn from_spec(c: u16) -> Self {
        Gray16 { y: be16(c), _endianness: PhantomData }
    }
}

impl From<Gray16<LittleEndian>> for u16 {
    fn from(c: Gray16<LittleEndian>) -> (v: u16) {
        from_le16(c.y)
    }
}

impl FromSpecImpl<Gray16<LittleEndian>> for u16 {
    open spec fn obeys_from_spec() -> bool {
        true
    }

    open spec fn from_spec(c: Gray16<LittleEndian>) -> u16 {
        le16(c.y)
    }
}

impl From<u16> for Gray16<LittleEndian> {
    fn from(c: u16) -> (n: Self) {
        Self { y: to_le16(c), _endianness: PhantomData }
    }
}

impl FromSpecImpl<u16> for Gray16<LittleEndian> {
    open spec fn obeys_from_spec() -> bool {
        true
    }

    open spec fn from_spec(c: u16) -> Self {
        Gray16 { y: le16(c), _endianness: PhantomData }
    }
}

} // verus!
