//! The PNG format.

use crate::buffer::{
    lemma_memory_len, lemma_pixels_of_memory, pixels_of, place, RawPixBuf, RawPixel,
};
use crate::color::convert::{ConvertFrom, ConvertInto};
use crate::color::{BigEndian, Color, Gray, Gray16, Nrgba, Nrgba64, Rgb, Rgb48};
use crate::image::{Dimensions, Format, Image, ImageMut};
use crate::serialize::{DecodeError, DecodeOptions, EncodeError, EncodeOptions};
use crate::byteorder::fit32;
use crate::specialized::No;
use vstd::prelude::*;

verus! {

/// The PNG format.
pub struct Png;

/// The magic string of the format.
pub const MAGIC: [u8; 8] = [0x89, 0x50, 0x4e, 0x47, 0x0d, 0x0a, 0x1a, 0x0a];

impl Format for Png {
    open spec fn spec_id(&self) -> Seq<char> {
        "feim:png"@
    }

    open spec fn spec_magic(&self) -> Seq<u8> {
        MAGIC@
    }

    fn id(&self) -> (id: &'static str) {
        "feim:png"
    }

    fn magic(&self) -> (magic: &'static [u8]) {
        &MAGIC
    }
}

/// How the encoder filters the lines of an image before it compresses them.
#[derive(Clone, Copy, Debug, PartialEq, Eq, Structural)]
pub enum FilterType {
    NoFilter,
    Sub,
    Up,
    Avg,
    Paeth,
}

/// How hard the encoder tries to compress.
#[derive(Clone, Copy, Debug, PartialEq, Eq, Structural)]
pub enum Compression {
    Default,
    Fast,
    Best,
    Huffman,
    Rle,
}

/// Options of the PNG encoder.
pub struct PngEncodeOptions {
    pub filter: FilterType,
    pub compression: Compression,
}

impl Default for PngEncodeOptions {
    fn default() -> (o: Self)
        ensures
            o.filter == FilterType::NoFilter,
            o.compression == Compression::Default,
    {
        Self { filter: FilterType::NoFilter, compression: Compression::Default }
    }
}

/// The samples of a pixel.
#[derive(Clone, Copy, Debug, PartialEq, Eq, Structural)]
pub enum ColorType {
    Grayscale,
    Rgb,
    Indexed,
    GrayscaleAlpha,
    Rgba,
}

/// Number of bits of a sample.
#[derive(Clone, Copy, Debug, PartialEq, Eq, Structural)]
pub enum BitDepth {
    One,
    Two,
    Four,
    Eight,
    Sixteen,
}

/// What an encoder is given: the size, the layout of the pixels and their
/// bytes.
pub struct PngFrame {
    pub width: u32,
    pub height: u32,
    pub color: ColorType,
    pub depth: BitDepth,
    pub data: Vec<u8>,
}

/// Whether the format can hold a width and a height: each fits in 32 bits.
pub open spec fn size_fits(width: usize, height: usize) -> bool {
    width <= u32::MAX && height <= u32::MAX
}

/// A colour whose pixels the PNG encoder reads as they lie in memory.
pub trait PngColor: RawPixel {
    /// The samples of a pixel.
    spec fn spec_color_type() -> ColorType;

    /// Number of bits of a sample.
    spec fn spec_bit_depth() -> BitDepth;

    fn color_type() -> (c: ColorType)
        ensures
            c == Self::spec_color_type(),
    ;

    fn bit_depth() -> (d: BitDepth)
        ensures
            d == Self::spec_bit_depth(),
    ;
}

impl PngColor for Gray {
    open spec fn spec_color_type() -> ColorType {
        ColorType::Grayscale
    }

    open spec fn spec_bit_depth() -> BitDepth {
        BitDepth::Eight
    }

    fn color_type() -> (c: ColorType) {
        ColorType::Grayscale
    }

    fn bit_depth() -> (d: BitDepth) {
        BitDepth::Eight
    }
}

impl PngColor for Gray16<BigEndian> {
    open spec fn spec_color_type() -> ColorType {
        ColorType::Grayscale
    }

    open spec fn spec_bit_depth() -> BitDepth {
        BitDepth::Sixteen
    }

    fn color_type() -> (c: ColorType) {
        ColorType::Grayscale
    }

    fn bit_depth() -> (d: BitDepth) {
        BitDepth::Sixteen
    }
}

impl PngColor for Nrgba {
    open spec fn spec_color_type() -> ColorType {
        ColorType::Rgba
    }

    open spec fn spec_bit_depth() -> BitDepth {
        BitDepth::Eight
    }

    fn color_type() -> (c: ColorType) {
        ColorType::Rgba
    }

    fn bit_depth() -> (d: BitDepth) {
        BitDepth::Eight
    }
}

impl PngColor for Nrgba64<BigEndian> {
    open spec fn spec_color_type() -> ColorType {
        ColorType::Rgba
    }

    open spec fn spec_bit_depth() -> BitDepth {
        BitDepth::Sixteen
    }

    fn color_type() -> (c: ColorType) {
        ColorType::Rgba
    }

    fn bit_depth() -> (d: BitDepth) {
        BitDepth::Sixteen
    }
}

impl PngColor for Rgb {
    open spec fn spec_color_type() -> ColorType {
        ColorType::Rgb
    }

    open spec fn spec_bit_depth() -> BitDepth {
        BitDepth::Eight
    }

    fn color_type() -> (c: ColorType) {
        ColorType::Rgb
    }

    fn bit_depth() -> (d: BitDepth) {
        BitDepth::Eight
    }
}

impl PngColor for Rgb48<BigEndian> {
    open spec fn spec_color_type() -> ColorType {
        ColorType::Rgb
    }

    open spec fn spec_bit_depth() -> BitDepth {
        BitDepth::Sixteen
    }

    fn color_type() -> (c: ColorType) {
        ColorType::Rgb
    }

    fn bit_depth() -> (d: BitDepth) {
        BitDepth::Sixteen
    }
}

/// The layout that a decoded image has for the samples and the bit depth
/// that a decoder reports, if there is one.
pub open spec fn layout_of(color: ColorType, depth: BitDepth) -> Option<(ColorType, BitDepth)> {
    match (color, depth) {
        (ColorType::Grayscale, BitDepth::Eight) => Some((color, depth)),
        (ColorType::Grayscale, BitDepth::Sixteen) => Some((color, depth)),
        (ColorType::Rgba, BitDepth::Eight) => Some((color, depth)),
        (ColorType::Rgba, BitDepth::Sixteen) => Some((color, depth)),
        (ColorType::Rgb, BitDepth::Eight) => Some((color, depth)),
        (ColorType::Rgb, BitDepth::Sixteen) => Some((color, depth)),
        _ => None,
    }
}

/// Number of bytes of a pixel with the given samples and bit depth, where a
/// decoded image can have them.
pub open spec fn pixel_size(color: ColorType, depth: BitDepth) -> usize {
    match (color, depth) {
        (ColorType::Grayscale, BitDepth::Eight) => 1,
        (ColorType::Grayscale, BitDepth::Sixteen) => 2,
        (ColorType::Rgba, BitDepth::Eight) => 4,
        (ColorType::Rgba, BitDepth::Sixteen) => 8,
        (ColorType::Rgb, BitDepth::Eight) => 3,
        (ColorType::Rgb, BitDepth::Sixteen) => 6,
        _ => 0,
    }
}

impl Png {
    /// What the encoder is given for an image: its width and its height,
    /// the layout of its pixels, and the pixels as they lie in memory. An
    /// image whose width or height does not fit in 32 bits cannot be held.
    pub fn frame<T: PngColor>(buf: &RawPixBuf<T>) -> (r: Result<PngFrame, EncodeError>)
        ensures
            r is Ok <==> size_fits(buf.w(), buf.h()),
            r is Err ==> r->Err_0 == EncodeError::Unsupported,
            r is Ok ==> r->Ok_0.width == buf.w() && r->Ok_0.height == buf.h() && r->Ok_0.color
                == T::spec_color_type() && r->Ok_0.depth == T::spec_bit_depth() && r->Ok_0.data@
                == buf.memory(),
    {
        match (fit32(buf.width()), fit32(buf.height())) {
            (Some(width), Some(height)) => Ok(
                PngFrame {
                    width,
                    height,
                    color: T::color_type(),
                    depth: T::bit_depth(),
                    data: buf.to_bytes(),
                },
            ),
            _ => Err(EncodeError::Unsupported),
        }
    }

    /// What the encoder is given for an image of any kind: every pixel is
    /// converted to the colour `Nrgba64<BigEndian>` first. Besides an image
    /// that the format cannot hold, one with more pixels than a machine word
    /// counts cannot be converted.
    pub fn frame_generic<I: Image + Dimensions>(buf: &I) -> (r: Result<PngFrame, EncodeError>)
        requires
            forall|x: usize, y: usize|
                x < buf.spec_width() && y < buf.spec_height() ==> #[trigger] buf.has_pixel(x, y),
        ensures
            r is Ok <==> size_fits(buf.spec_width(), buf.spec_height()) && buf.spec_width()
                * buf.spec_height() <= usize::MAX,
            r is Err ==> r->Err_0 == EncodeError::Unsupported,
            r is Ok ==> {
                let f = r->Ok_0;
                &&& f.width == buf.spec_width()
                &&& f.height == buf.spec_height()
                &&& f.color == ColorType::Rgba
                &&& f.depth == BitDepth::Sixteen
                &&& f.data@.len() == buf.spec_width() * buf.spec_height() * <Nrgba64<
                    BigEndian,
                > as RawPixel>::spec_size()
                &&& forall|x: usize, y: usize|
                    x < buf.spec_width() && y < buf.spec_height() ==> pixels_of::<
                        Nrgba64<BigEndian>,
                    >(f.data@, (buf.spec_width() * buf.spec_height()) as nat)[#[trigger] place(
                        buf.spec_width(),
                        x,
                        y,
                    )] == <Nrgba64<BigEndian> as ConvertFrom<I::Pixel, No>>::converted(
                        buf.pixel_at(x, y),
                    )
            },
    {
        let (width, height) = buf.dimensions();
        if fit32(width).is_none() || fit32(height).is_none() || width.checked_mul(height).is_none() {
            return Err(EncodeError::Unsupported);
        }
        let new_buf: RawPixBuf<Nrgba64<BigEndian>> = RawPixBuf::from_image(buf);
        let r = Self::frame(&new_buf);
        proof {
            let f = r->Ok_0;
            lemma_pixels_of_memory(new_buf.pixels());
            lemma_memory_len(new_buf.pixels());
            let n = (buf.spec_width() * buf.spec_height()) as nat;
            assert(new_buf.pixels().len() == n);
            assert(pixels_of::<Nrgba64<BigEndian>>(f.data@, n) == new_buf.pixels());
            assert forall|x: usize, y: usize|
                x < buf.spec_width() && y < buf.spec_height() implies pixels_of::<
                Nrgba64<BigEndian>,
            >(f.data@, n)[#[trigger] place(buf.spec_width(), x, y)] == <Nrgba64<
                BigEndian,
            > as ConvertFrom<I::Pixel, No>>::converted(buf.pixel_at(x, y)) by {
                assert(new_buf.offset(x, y) == place(buf.spec_width(), x, y));
            }
        }
        r
    }

    /// What the encoder is given for a decoded image.
    pub fn frame_of(buf: &PngBuf) -> (r: Result<PngFrame, EncodeError>)
        ensures
            r is Ok <==> size_fits(buf.spec_width(), buf.spec_height()),
            r is Err ==> r->Err_0 == EncodeError::Unsupported,
            r is Ok ==> {
                let f = r->Ok_0;
                &&& f.width == buf.spec_width()
                &&& f.height == buf.spec_height()
                &&& f.data@ == buf.memory()
                &&& (f.color, f.depth) == (match buf {
                    PngBuf::Gray(_) => (ColorType::Grayscale, BitDepth::Eight),
                    PngBuf::Gray16(_) => (ColorType::Grayscale, BitDepth::Sixteen),
                    PngBuf::Nrgba(_) => (ColorType::Rgba, BitDepth::Eight),
                    PngBuf::Nrgba64(_) => (ColorType::Rgba, BitDepth::Sixteen),
                    PngBuf::Rgb(_) => (ColorType::Rgb, BitDepth::Eight),
                    PngBuf::Rgb48(_) => (ColorType::Rgb, BitDepth::Sixteen),
                })
            },
    {
        match buf {
            PngBuf::Gray(buf) => Self::frame(buf),
            PngBuf::Gray16(buf) => Self::frame(buf),
            PngBuf::Nrgba(buf) => Self::frame(buf),
            PngBuf::Nrgba64(buf) => Self::frame(buf),
            PngBuf::Rgb(buf) => Self::frame(buf),
            PngBuf::Rgb48(buf) => Self::frame(buf),
        }
    }
}

impl EncodeOptions for Png {
    type Options = PngEncodeOptions;
}

impl DecodeOptions for Png {
    type Options = ();
}

/// A decoded PNG image: pixels of one of the colours that the format holds.
pub enum PngBuf {
    Gray(RawPixBuf<Gray>),
    Gray16(RawPixBuf<Gray16<BigEndian>>),
    Nrgba(RawPixBuf<Nrgba>),
    Nrgba64(RawPixBuf<Nrgba64<BigEndian>>),
    Rgb(RawPixBuf<Rgb>),
    Rgb48(RawPixBuf<Rgb48<BigEndian>>),
}

/// A pixel of a PNG image.
#[derive(Copy, Clone)]
pub enum PngPix {
    Gray(Gray),
    Gray16(Gray16<BigEndian>),
    Nrgba(Nrgba),
    Nrgba64(Nrgba64<BigEndian>),
    Rgb(Rgb),
    Rgb48(Rgb48<BigEndian>),
}

impl PngBuf {
    /// There are as many pixels as the width and the height say.
    pub open spec fn wf(&self) -> bool {
        match self {
            PngBuf::Gray(buf) => buf.wf(),
            PngBuf::Gray16(buf) => buf.wf(),
            PngBuf::Nrgba(buf) => buf.wf(),
            PngBuf::Nrgba64(buf) => buf.wf(),
            PngBuf::Rgb(buf) => buf.wf(),
            PngBuf::Rgb48(buf) => buf.wf(),
        }
    }

    /// The bytes of the pixels as they lie in memory.
    pub open spec fn memory(&self) -> Seq<u8> {
        match self {
            PngBuf::Gray(buf) => buf.memory(),
            PngBuf::Gray16(buf) => buf.memory(),
            PngBuf::Nrgba(buf) => buf.memory(),
            PngBuf::Nrgba64(buf) => buf.memory(),
            PngBuf::Rgb(buf) => buf.memory(),
            PngBuf::Rgb48(buf) => buf.memory(),
        }
    }

    /// The bytes of the pixels as they lie in memory.
    pub fn to_bytes(&self) -> (bytes: Vec<u8>)
        ensures
            bytes@ == self.memory(),
    {
        match self {
            PngBuf::Gray(buf) => buf.to_bytes(),
            PngBuf::Gray16(buf) => buf.to_bytes(),
            PngBuf::Nrgba(buf) => buf.to_bytes(),
            PngBuf::Nrgba64(buf) => buf.to_bytes(),
            PngBuf::Rgb(buf) => buf.to_bytes(),
            PngBuf::Rgb48(buf) => buf.to_bytes(),
        }
    }
}

impl Dimensions for PngBuf {
    open spec fn spec_width(&self) -> usize {
        match self {
            PngBuf::Gray(buf) => buf.w(),
            PngBuf::Gray16(buf) => buf.w(),
            PngBuf::Nrgba(buf) => buf.w(),
            PngBuf::Nrgba64(buf) => buf.w(),
            PngBuf::Rgb(buf) => buf.w(),
            PngBuf::Rgb48(buf) => buf.w(),
        }
    }

    open spec fn spec_height(&self) -> usize {
        match self {
            PngBuf::Gray(buf) => buf.h(),
            PngBuf::Gray16(buf) => buf.h(),
            PngBuf::Nrgba(buf) => buf.h(),
            PngBuf::Nrgba64(buf) => buf.h(),
            PngBuf::Rgb(buf) => buf.h(),
            PngBuf::Rgb48(buf) => buf.h(),
        }
    }

    fn width(&self) -> (w: usize) {
        match self {
            PngBuf::Gray(buf) => buf.width(),
            PngBuf::Gray16(buf) => buf.width(),
            PngBuf::Nrgba(buf) => buf.width(),
            PngBuf::Nrgba64(buf) => buf.width(),
            PngBuf::Rgb(buf) => buf.width(),
            PngBuf::Rgb48(buf) => buf.width(),
        }
    }

    fn height(&self) -> (h: usize) {
        match self {
            PngBuf::Gray(buf) => buf.height(),
            PngBuf::Gray16(buf) => buf.height(),
            PngBuf::Nrgba(buf) => buf.height(),
            PngBuf::Nrgba64(buf) => buf.height(),
            PngBuf::Rgb(buf) => buf.height(),
            PngBuf::Rgb48(buf) => buf.height(),
        }
    }
}

impl Image for PngBuf {
    type Pixel = PngPix;

    open spec fn has_pixel(&self, x: usize, y: usize) -> bool {
        match self {
            PngBuf::Gray(buf) => buf.has_pixel(x, y),
            PngBuf::Gray16(buf) => buf.has_pixel(x, y),
            PngBuf::Nrgba(buf) => buf.has_pixel(x, y),
            PngBuf::Nrgba64(buf) => buf.has_pixel(x, y),
            PngBuf::Rgb(buf) => buf.has_pixel(x, y),
            PngBuf::Rgb48(buf) => buf.has_pixel(x, y),
        }
    }

    open spec fn pixel_at(&self, x: usize, y: usize) -> PngPix {
        match self {
            PngBuf::Gray(buf) => PngPix::Gray(buf.pixel_at(x, y)),
            PngBuf::Gray16(buf) => PngPix::Gray16(buf.pixel_at(x, y)),
            PngBuf::Nrgba(buf) => PngPix::Nrgba(buf.pixel_at(x, y)),
            PngBuf::Nrgba64(buf) => PngPix::Nrgba64(buf.pixel_at(x, y)),
            PngBuf::Rgb(buf) => PngPix::Rgb(buf.pixel_at(x, y)),
            PngBuf::Rgb48(buf) => PngPix::Rgb48(buf.pixel_at(x, y)),
        }
    }

    fn color_get(&self, x: usize, y: usize) -> (c: PngPix) {
        match self {
            PngBuf::Gray(buf) => PngPix::Gray(buf.color_get(x, y)),
            PngBuf::Gray16(buf) => PngPix::Gray16(buf.color_get(x, y)),
            PngBuf::Nrgba(buf) => PngPix::Nrgba(buf.color_get(x, y)),
            PngBuf::Nrgba64(buf) => PngPix::Nrgba64(buf.color_get(x, y)),
            PngBuf::Rgb(buf) => PngPix::Rgb(buf.color_get(x, y)),
            PngBuf::Rgb48(buf) => PngPix::Rgb48(buf.color_get(x, y)),
        }
    }
}

impl ImageMut for PngBuf {
    type Pixel = PngPix;

    open spec fn can_set(&self, x: usize, y: usize) -> bool {
        match self {
            PngBuf::Gray(buf) => buf.can_set(x, y),
            PngBuf::Gray16(buf) => buf.can_set(x, y),
            PngBuf::Nrgba(buf) => buf.can_set(x, y),
            PngBuf::Nrgba64(buf) => buf.can_set(x, y),
            PngBuf::Rgb(buf) => buf.can_set(x, y),
            PngBuf::Rgb48(buf) => buf.can_set(x, y),
        }
    }

    /// The image holds the same colour as before; a pixel of that colour is
    /// set as it is, a pixel of another is converted.
    open spec fn set_to(&self, before: &Self, x: usize, y: usize, color: PngPix) -> bool {
        match (self, before) {
            (PngBuf::Gray(after), PngBuf::Gray(buf)) => match color {
                PngPix::Gray(c) => after.set_to(buf, x, y, c),
                c => after.set_to(buf, x, y, <Gray as ConvertFrom<PngPix, No>>::converted(c)),
            },
            (PngBuf::Gray16(after), PngBuf::Gray16(buf)) => match color {
                PngPix::Gray16(c) => after.set_to(buf, x, y, c),
                c => after.set_to(buf, x, y, <Gray16<BigEndian> as ConvertFrom<PngPix, No>>::converted(c)),
            },
            (PngBuf::Nrgba(after), PngBuf::Nrgba(buf)) => match color {
                PngPix::Nrgba(c) => after.set_to(buf, x, y, c),
                c => after.set_to(buf, x, y, <Nrgba as ConvertFrom<PngPix, No>>::converted(c)),
            },
            (PngBuf::Nrgba64(after), PngBuf::Nrgba64(buf)) => match color {
                PngPix::Nrgba64(c) => after.set_to(buf, x, y, c),
                c => after.set_to(buf, x, y, <Nrgba64<BigEndian> as ConvertFrom<PngPix, No>>::converted(c)),
            },
            (PngBuf::Rgb(after), PngBuf::Rgb(buf)) => match color {
                PngPix::Rgb(c) => after.set_to(buf, x, y, c),
                c => after.set_to(buf, x, y, <Rgb as ConvertFrom<PngPix, No>>::converted(c)),
            },
            (PngBuf::Rgb48(after), PngBuf::Rgb48(buf)) => match color {
                PngPix::Rgb48(c) => after.set_to(buf, x, y, c),
                c => after.set_to(buf, x, y, <Rgb48<BigEndian> as ConvertFrom<PngPix, No>>::converted(c)),
            },
            _ => false,
        }
    }

    fn color_set<C, ColorSpecialized>(&mut self, x: usize, y: usize, color: C) where
        C: ConvertInto<PngPix, ColorSpecialized> + Color,
     {
        let converted = <C as ConvertInto<PngPix, ColorSpecialized>>::convert_into(color);
        match self {
            PngBuf::Gray(buf) => match converted {
                PngPix::Gray(c) => buf.pixel_set(x, y, c),
                c => buf.color_set_generic(x, y, c),
            },
            PngBuf::Gray16(buf) => match converted {
                PngPix::Gray16(c) => buf.pixel_set(x, y, c),
                c => buf.color_set_generic(x, y, c),
            },
            PngBuf::Nrgba(buf) => match converted {
                PngPix::Nrgba(c) => buf.pixel_set(x, y, c),
                c => buf.color_set_generic(x, y, c),
            },
            PngBuf::Nrgba64(buf) => match converted {
                PngPix::Nrgba64(c) => buf.pixel_set(x, y, c),
                c => buf.color_set_generic(x, y, c),
            },
            PngBuf::Rgb(buf) => match converted {
                PngPix::Rgb(c) => buf.pixel_set(x, y, c),
                c => buf.color_set_generic(x, y, c),
            },
            PngBuf::Rgb48(buf) => match converted {
                PngPix::Rgb48(c) => buf.pixel_set(x, y, c),
                c => buf.color_set_generic(x, y, c),
            },
        }
    }
}

impl Color for PngPix {
    open spec fn rgba(&self) -> (u32, u32, u32, u32) {
        match self {
            PngPix::Gray(c) => c.rgba(),
            PngPix::Gray16(c) => c.rgba(),
            PngPix::Nrgba(c) => c.rgba(),
            PngPix::Nrgba64(c) => c.rgba(),
            PngPix::Rgb(c) => c.rgba(),
            PngPix::Rgb48(c) => c.rgba(),
        }
    }

    fn as_rgba(&self) -> (c: (u32, u32, u32, u32)) {
        match self {
            PngPix::Gray(c) => c.as_rgba(),
            PngPix::Gray16(c) => c.as_rgba(),
            PngPix::Nrgba(c) => c.as_rgba(),
            PngPix::Nrgba64(c) => c.as_rgba(),
            PngPix::Rgb(c) => c.as_rgba(),
            PngPix::Rgb48(c) => c.as_rgba(),
        }
    }
}

impl PngBuf {
    /// The image that a decoder has handed out as samples, a bit depth, a
    /// size and the bytes of the pixels. Samples other than gray, RGB and
    /// RGBA and depths other than 8 and 16 bits are not supported; the bytes
    /// have to be as many as the pixels take.
    pub fn from_decoded(
        color: ColorType,
        depth: BitDepth,
        width: u32,
        height: u32,
        data: Vec<u8>,
    ) -> (r: Result<PngBuf, DecodeError>)
        ensures
            layout_of(color, depth) is None ==> r == Err::<PngBuf, DecodeError>(
                DecodeError::UnsupportedColorType,
            ),
            layout_of(color, depth) is Some && data@.len() != width * height * pixel_size(
                color,
                depth,
            ) ==> r == Err::<PngBuf, DecodeError>(DecodeError::Malformed),
            layout_of(color, depth) is Some && data@.len() == width * height * pixel_size(
                color,
                depth,
            ) ==> r is Ok,
            r is Ok ==> {
                let buf = r->Ok_0;
                &&& buf.wf()
                &&& buf.spec_width() == width
                &&& buf.spec_height() == height
                &&& match (color, depth) {
                    (ColorType::Grayscale, BitDepth::Eight) => buf is Gray
                        && buf->Gray_0.pixels() == pixels_of::<Gray>(
                        data@,
                        (width * height) as nat,
                    ),
                    (ColorType::Grayscale, BitDepth::Sixteen) => buf is Gray16
                        && buf->Gray16_0.pixels() == pixels_of::<Gray16<BigEndian>>(
                        data@,
                        (width * height) as nat,
                    ),
                    (ColorType::Rgba, BitDepth::Eight) => buf is Nrgba
                        && buf->Nrgba_0.pixels() == pixels_of::<Nrgba>(
                        data@,
                        (width * height) as nat,
                    ),
                    (ColorType::Rgba, BitDepth::Sixteen) => buf is Nrgba64
                        && buf->Nrgba64_0.pixels() == pixels_of::<Nrgba64<BigEndian>>(
                        data@,
                        (width * height) as nat,
                    ),
                    (ColorType::Rgb, BitDepth::Eight) => buf is Rgb && buf->Rgb_0.pixels()
                        == pixels_of::<Rgb>(data@, (width * height) as nat),
                    (ColorType::Rgb, BitDepth::Sixteen) => buf is Rgb48
                        && buf->Rgb48_0.pixels() == pixels_of::<Rgb48<BigEndian>>(
                        data@,
                        (width * height) as nat,
                    ),
                    _ => false,
                }
            },
    {
        let w = width as usize;
        let h = height as usize;
        match (color, depth) {
            (ColorType::Grayscale, BitDepth::Eight) => match RawPixBuf::from_vec(w, h, data) {
                Ok(buf) => Ok(PngBuf::Gray(buf)),
                Err(_) => Err(DecodeError::Malformed),
            },
            (ColorType::Grayscale, BitDepth::Sixteen) => match RawPixBuf::from_vec(w, h, data) {
                Ok(buf) => Ok(PngBuf::Gray16(buf)),
                Err(_) => Err(DecodeError::Malformed),
            },
            (ColorType::Rgba, BitDepth::Eight) => match RawPixBuf::from_vec(w, h, data) {
                Ok(buf) => Ok(PngBuf::Nrgba(buf)),
                Err(_) => Err(DecodeError::Malformed),
            },
            (ColorType::Rgba, BitDepth::Sixteen) => match RawPixBuf::from_vec(w, h, data) {
                Ok(buf) => Ok(PngBuf::Nrgba64(buf)),
                Err(_) => Err(DecodeError::Malformed),
            },
            (ColorType::Rgb, BitDepth::Eight) => match RawPixBuf::from_vec(w, h, data) {
                Ok(buf) => Ok(PngBuf::Rgb(buf)),
                Err(_) => Err(DecodeError::Malformed),
            },
            (ColorType::Rgb, BitDepth::Sixteen) => match RawPixBuf::from_vec(w, h, data) {
                Ok(buf) => Ok(PngBuf::Rgb48(buf)),
                Err(_) => Err(DecodeError::Malformed),
            },
            _ => Err(DecodeError::UnsupportedColorType),
        }
    }
}

} // verus!
