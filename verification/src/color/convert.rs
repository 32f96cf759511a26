//! Conversion between colours.

use super::{Color, Endianness, Gray16, Nrgba64, Rgb48};
use crate::buffer::{AsTyped, RawPixBuf};
use crate::image::Dimensions;
use crate::specialized::{Aye, For, No};
use vstd::prelude::*;

verus! {

/// Colours that can be made from a colour `C`.
pub trait ConvertFrom<C, Specialized = No>: Sized where C: Color {
    /// Whether `convert_from` returns what [`Self::converted`] says. It does
    /// for every conversion of this library between its own colours.
    spec fn obeys_convert_spec() -> bool;

    /// The colour that `c` is converted to.
    spec fn converted(c: C) -> Self;

    /// Returns the result of converting a color from `C` into
    /// `Self`.
    fn convert_from(c: C) -> (r: Self)
        ensures
            Self::obeys_convert_spec() ==> r == Self::converted(c),
    ;
}

impl<C: Color> ConvertFrom<C, For<C>> for C {
    open spec fn obeys_convert_spec() -> bool {
        true
    }

    open spec fn converted(c: C) -> C {
        c
    }

    #[inline(always)]
    fn convert_from(color: C) -> (r: C) {
        color
    }
}

/// Colours that can be turned into a colour `C`.
pub trait ConvertInto<C, Specialized = No>: Sized where C: Color {
    /// Whether `convert_into` returns what [`Self::converted_into`] says.
    spec fn obeys_convert_into_spec() -> bool;

    /// The colour that `self` is converted to.
    spec fn converted_into(self) -> C;

    /// Returns the result of converting a color from `Self` into
    /// `C`.
    fn convert_into(self) -> (r: C)
        ensures
            Self::obeys_convert_into_spec() ==> r == self.converted_into(),
    ;
}

impl<A, B, Specialized> ConvertInto<B, Specialized> for A where
    A: Color,
    B: ConvertFrom<A, Specialized> + Color,
 {
    open spec fn obeys_convert_into_spec() -> bool {
        B::obeys_convert_spec()
    }

    open spec fn converted_into(self) -> B {
        B::converted(self)
    }

    fn convert_into(self) -> (r: B) {
        B::convert_from(self)
    }
}

impl<E1> RawPixBuf<Nrgba64<E1>> {
    /// The image with every pixel in the byte order `E2`.
    #[inline]
    pub fn encode_as<E2>(self) -> (r: RawPixBuf<Nrgba64<E2>>) where
        E1: Endianness + Copy,
        E2: Endianness + Copy,
        Nrgba64<E1>: Color,
        Nrgba64<E2>: Color + From<u64>,
        u64: From<Nrgba64<E1>>,

        requires
            self.wf(),
        ensures
            r.wf(),
            r.w() == self.w(),
            r.h() == self.h(),
            <Nrgba64<E2> as ConvertFrom<Nrgba64<E1>, Aye>>::obeys_convert_spec() ==> forall|i: int|
                0 <= i < r.pixels().len() ==> #[trigger] r.pixels()[i] == <Nrgba64<E2> as ConvertFrom<
                    Nrgba64<E1>,
                    Aye,
                >>::converted(self.pixels()[i]),
    {
        let (width, height) = self.dimensions();
        let pixels = self.as_typed();
        let n = pixels.len();
        let mut converted: Vec<Nrgba64<E2>> = Vec::new();
        let mut i: usize = 0;
        while i < n
            invariant
                i <= n,
                n == pixels@.len(),
                pixels@ == self.pixels(),
                converted@.len() == i,
                <Nrgba64<E2> as ConvertFrom<Nrgba64<E1>, Aye>>::obeys_convert_spec() ==> forall|j: int|
                    0 <= j < i ==> #[trigger] converted@[j] == <Nrgba64<E2> as ConvertFrom<
                        Nrgba64<E1>,
                        Aye,
                    >>::converted(pixels@[j]),
            decreases n - i,
        {
            let pixel: Nrgba64<E1> = pixels[i];
            let new_pixel = <Nrgba64<E2> as ConvertFrom<Nrgba64<E1>, Aye>>::convert_from(pixel);
            converted.push(new_pixel);
            i += 1;
        }
        RawPixBuf::with_pixels(width, height, converted)
    }
}

impl<E1> RawPixBuf<Gray16<E1>> {
    /// The image with every pixel in the byte order `E2`.
    #[inline]
    pub fn encode_as<E2>(self) -> (r: RawPixBuf<Gray16<E2>>) where
        E1: Endianness + Copy,
        E2: Endianness + Copy,
        Gray16<E1>: Color,
        Gray16<E2>: Color + From<u16>,
        u16: From<Gray16<E1>>,

        requires
            self.wf(),
        ensures
            r.wf(),
            r.w() == self.w(),
            r.h() == self.h(),
            <Gray16<E2> as ConvertFrom<Gray16<E1>, Aye>>::obeys_convert_spec() ==> forall|i: int|
                0 <= i < r.pixels().len() ==> #[trigger] r.pixels()[i] == <Gray16<E2> as ConvertFrom<
                    Gray16<E1>,
                    Aye,
                >>::converted(self.pixels()[i]),
    {
        let (width, height) = self.dimensions();
        let pixels = self.as_typed();
        let n = pixels.len();
        let mut converted: Vec<Gray16<E2>> = Vec::new();
        let mut i: usize = 0;
        while i < n
            invariant
                i <= n,
                n == pixels@.len(),
                pixels@ == self.pixels(),
                converted@.len() == i,
                <Gray16<E2> as ConvertFrom<Gray16<E1>, Aye>>::obeys_convert_spec() ==> forall|j: int|
                    0 <= j < i ==> #[trigger] converted@[j] == <Gray16<E2> as ConvertFrom<
                        Gray16<E1>,
                        Aye,
                    >>::converted(pixels@[j]),
            decreases n - i,
        {
            let pixel: Gray16<E1> = pixels[i];
            let new_pixel = <Gray16<E2> as ConvertFrom<Gray16<E1>, Aye>>::convert_from(pixel);
            converted.push(new_pixel);
            i += 1;
        }
        RawPixBuf::with_pixels(width, height, converted)
    }
}

impl<E1> RawPixBuf<Rgb48<E1>> {
    /// The image with every pixel in the byte order `E2`.
    #[inline]
    pub fn encode_as<E2>(self) -> (r: RawPixBuf<Rgb48<E2>>) where
        E1: Endianness + Copy,
        E2: Endianness + Copy,
        Rgb48<E1>: Color,
        Rgb48<E2>: Color + From<u64>,
        u64: From<Rgb48<E1>>,

        requires
            self.wf(),
        ensures
            r.wf(),
            r.w() == self.w(),
            r.h() == self.h(),
            <Rgb48<E2> as ConvertFrom<Rgb48<E1>, Aye>>::obeys_convert_spec() ==> forall|i: int|
                0 <= i < r.pixels().len() ==> #[trigger] r.pixels()[i] == <Rgb48<E2> as ConvertFrom<
                    Rgb48<E1>,
                    Aye,
                >>::converted(self.pixels()[i]),
    {
        let (width, height) = self.dimensions();
        let pixels = self.as_typed();
        let n = pixels.len();
        let mut converted: Vec<Rgb48<E2>> = Vec::new();
        let mut i: usize = 0;
        while i < n
            invariant
                i <= n,
                n == pixels@.len(),
                pixels@ == self.pixels(),
                converted@.len() == i,
                <Rgb48<E2> as ConvertFrom<Rgb48<E1>, Aye>>::obeys_convert_spec() ==> forall|j: int|
                    0 <= j < i ==> #[trigger] converted@[j] == <Rgb48<E2> as ConvertFrom<
                        Rgb48<E1>,
                        Aye,
                    >>::converted(pixels@[j]),
            decreases n - i,
        {
            let pixel: Rgb48<E1> = pixels[i];
            let new_pixel = <Rgb48<E2> as ConvertFrom<Rgb48<E1>, Aye>>::convert_from(pixel);
            converted.push(new_pixel);
            i += 1;
        }
        RawPixBuf::with_pixels(width, height, converted)
    }
}

} // verus!
