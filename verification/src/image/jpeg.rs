//! The JPEG format.

use crate::buffer::{
    lemma_memory_len, lemma_pixels_of_memory, pixels_of, place, RawPixBuf, RawPixel,
};
use crate::color::convert::{ConvertFrom, ConvertInto};
use crate::color::{BigEndian, Cmyk, Color, Gray, Gray16, Nrgba, Rgb};
use crate::image::{Dimensions, Format, Image, ImageMut};
use crate::serialize::{DecodeError, DecodeOptions, EncodeError, EncodeOptions};
use crate::specialized::No;
use vstd::prelude::*;

verus! {

/// The JPEG format.
pub struct Jpeg;

/// The magic string of the format.
pub const MAGIC: [u8; 3] = [0xff, 0xd8, 0xff];

impl Format for Jpeg {
    open spec fn spec_id(&self) -> Seq<char> {
        "feim:jpeg"@
    }

    open spec fn spec_magic(&self) -> Seq<u8> {
        MAGIC@
    }

    fn id(&self) -> (id: &'static str) {
        "feim:jpeg"
    }

    fn magic(&self) -> (magic: &'static [u8]) {
        &MAGIC
    }
}

/// Options of the JPEG encoder.
pub struct JpegEncodeOptions {
    quality: u8,
}

impl JpegEncodeOptions {
    /// The quality that the encoder is asked for, from 0 to 100.
    pub closed spec fn spec_quality(&self) -> u8 {
        self.quality
    }

    /// Options with the given quality, which is at most 100.
    pub fn new(quality: u8) -> (o: Option<Self>)
        ensures
            o is Some <==> quality <= 100,
            o is Some ==> o->Some_0.spec_quality() == quality,
    {
        if quality <= 100 {
            Some(Self { quality })
        } else {
            None
        }
    }

    /// The quality that the encoder is asked for.
    pub fn quality(&self) -> (q: u8)
        ensures
            q == self.spec_quality(),
    {
        self.quality
    }
}

/// How a decoder hands out the pixels of a JPEG image.
#[derive(Clone, Copy, Debug, PartialEq, Eq, Structural)]
pub enum PixelFormat {
    /// Luminance, 8 bits.
    L8,
    /// Luminance, 16 bits.
    L16,
    /// Red, green and blue, 8 bits each.
    RGB24,
    /// Cyan, magenta, yellow and black, 8 bits each.
    CMYK32,
}

/// How an encoder is told to read the pixels that it is given.
#[derive(Clone, Copy, Debug, PartialEq, Eq, Structural)]
pub enum ColorType {
    Luma,
    Rgb,
    Rgba,
    Cmyk,
}

/// What an encoder is given: the size, the colour type and the bytes of the
/// pixels.
pub struct JpegFrame {
    pub width: u16,
    pub height: u16,
    pub color: ColorType,
    pub data: Vec<u8>,
}

/// Whether the format can hold a width and a height: each fits in 16 bits.
pub open spec fn size_fits(width: usize, height: usize) -> bool {
    width <= u16::MAX && height <= u16::MAX
}

/// A width and a height as numbers of 16 bits, where they are such.
fn fit16(width: usize, height: usize) -> (r: Option<(u16, u16)>)
    ensures
        r is Some <==> size_fits(width, height),
        r is Some ==> r->Some_0.0 == width && r->Some_0.1 == height,
{
    if width <= 0xffff && height <= 0xffff {
        Some((width as u16, height as u16))
    } else {
        None
    }
}

/// A colour whose pixels the JPEG encoder reads as they lie in memory.
pub trait JpegColor: RawPixel {
    /// The colour type that the encoder is told.
    spec fn spec_color_type() -> ColorType;

    fn color_type() -> (c: ColorType)
        ensures
            c == Self::spec_color_type(),
    ;
}

impl JpegColor for Rgb {
    open spec fn spec_color_type() -> ColorType {
        ColorType::Rgb
    }

    fn color_type() -> (c: ColorType) {
        ColorType::Rgb
    }
}

impl JpegColor for Gray {
    open spec fn spec_color_type() -> ColorType {
        ColorType::Luma
    }

    fn color_type() -> (c: ColorType) {
        ColorType::Luma
    }
}

impl JpegColor for Cmyk {
    open spec fn spec_color_type() -> ColorType {
        ColorType::Cmyk
    }

    fn color_type() -> (c: ColorType) {
        ColorType::Cmyk
    }
}

impl JpegColor for Nrgba {
    open spec fn spec_color_type() -> ColorType {
        ColorType::Rgba
    }

    fn color_type() -> (c: ColorType) {
        ColorType::Rgba
    }
}

impl Jpeg {
    /// What the encoder is given for an image: its width and its height,
    /// the colour type of its pixels, and the pixels as they lie in memory. An
    /// image whose width or height does not fit in 16 bits cannot be held.
    pub fn frame<T: JpegColor>(buf: &RawPixBuf<T>) -> (r: Result<JpegFrame, EncodeError>)
        ensures
            r is Ok <==> size_fits(buf.w(), buf.h()),
            r is Err ==> r->Err_0 == EncodeError::Unsupported,
            r is Ok ==> r->Ok_0.width == buf.w() && r->Ok_0.height == buf.h() && r->Ok_0.color
                == T::spec_color_type() && r->Ok_0.data@ == buf.memory(),
    {
        match fit16(buf.width(), buf.height()) {
            Some((width, height)) => Ok(
                JpegFrame { width, height, color: T::color_type(), data: buf.to_bytes() },
            ),
            None => Err(EncodeError::Unsupported),
        }
    }

    /// What the encoder is given for an image of any kind: every pixel is
    /// converted to the colour `Rgb` first.
    pub fn frame_generic<I: Image + Dimensions>(buf: &I) -> (r: Result<JpegFrame, EncodeError>)
        requires
            forall|x: usize, y: usize|
                x < buf.spec_width() && y < buf.spec_height() ==> #[trigger] buf.has_pixel(x, y),
        ensures
            r is Ok <==> size_fits(buf.spec_width(), buf.spec_height()),
            r is Err ==> r->Err_0 == EncodeError::Unsupported,
            r is Ok ==> {
                let f = r->Ok_0;
                &&& f.width == buf.spec_width()
                &&& f.height == buf.spec_height()
                &&& f.color == ColorType::Rgb
                &&& f.data@.len() == buf.spec_width() * buf.spec_height() * <Rgb as RawPixel>::spec_size()
                &&& forall|x: usize, y: usize|
                    x < buf.spec_width() && y < buf.spec_height() ==> pixels_of::<Rgb>(
                        f.data@,
                        (buf.spec_width() * buf.spec_height()) as nat,
                    )[#[trigger] place(buf.spec_width(), x, y)] == <Rgb as ConvertFrom<
                        I::Pixel,
                        No,
                    >>::converted(buf.pixel_at(x, y))
            },
    {
        let (width, height) = buf.dimensions();
        if fit16(width, height).is_none() {
            return Err(EncodeError::Unsupported);
        }
        assert(width * height <= 0xffff * 0xffff) by (nonlinear_arith)
            requires
                0 <= width <= 0xffff,
                0 <= height <= 0xffff,
        ;
        let new_buf: RawPixBuf<Rgb> = RawPixBuf::from_image(buf);
        let r = Self::frame(&new_buf);
        proof {
            let f = r->Ok_0;
            lemma_pixels_of_memory(new_buf.pixels());
            lemma_memory_len(new_buf.pixels());
            let n = (buf.spec_width() * buf.spec_height()) as nat;
            assert(new_buf.pixels().len() == n);
            assert(pixels_of::<Rgb>(f.data@, n) == new_buf.pixels());
            assert forall|x: usize, y: usize|
                x < buf.spec_width() && y < buf.spec_height() implies pixels_of::<Rgb>(
                f.data@,
                n,
            )[#[trigger] place(buf.spec_width(), x, y)] == <Rgb as ConvertFrom<
                I::Pixel,
                No,
            >>::converted(buf.pixel_at(x, y)) by {
                assert(new_buf.offset(x, y) == place(buf.spec_width(), x, y));
            }
        }
        r
    }

    /// What the encoder is given for a decoded image. An image of 16 bit
    /// gray cannot be encoded, nor one whose width or height does not fit in
    /// 16 bits.
    pub fn frame_of(buf: &JpegBuf) -> (r: Result<JpegFrame, EncodeError>)
        ensures
            r is Err <==> buf is Gray16 || !size_fits(buf.spec_width(), buf.spec_height()),
            r is Err ==> r->Err_0 == EncodeError::Unsupported,
            r is Ok ==> r->Ok_0.width == buf.spec_width() && r->Ok_0.height == buf.spec_height()
                && r->Ok_0.data@ == buf.memory() && r->Ok_0.color == (match buf {
                JpegBuf::Gray(_) => ColorType::Luma,
                JpegBuf::Rgb(_) => ColorType::Rgb,
                _ => ColorType::Cmyk,
            }),
    {
        match buf {
            JpegBuf::Gray16(_) => Err(EncodeError::Unsupported),
            JpegBuf::Gray(buf) => Self::frame(buf),
            JpegBuf::Rgb(buf) => Self::frame(buf),
            JpegBuf::Cmyk(buf) => Self::frame(buf),
        }
    }
}

/// Number of bytes of a pixel in a format.
pub open spec fn pixel_size(format: PixelFormat) -> usize {
    match format {
        PixelFormat::L8 => 1,
        PixelFormat::L16 => 2,
        PixelFormat::RGB24 => 3,
        PixelFormat::CMYK32 => 4,
    }
}

impl EncodeOptions for Jpeg {
    type Options = JpegEncodeOptions;
}

impl DecodeOptions for Jpeg {
    type Options = ();
}

/// A decoded JPEG image: pixels of one of the colours that the format holds.
pub enum JpegBuf {
    Gray(RawPixBuf<Gray>),
    Gray16(RawPixBuf<Gray16<BigEndian>>),
    Rgb(RawPixBuf<Rgb>),
    Cmyk(RawPixBuf<Cmyk>),
}

/// A pixel of a JPEG image.
#[derive(Copy, Clone)]
pub enum JpegPix {
    Gray(Gray),
    Gray16(Gray16<BigEndian>),
    Rgb(Rgb),
    Cmyk(Cmyk),
}

impl JpegBuf {
    /// There are as many pixels as the width and the height say.
    pub open spec fn wf(&self) -> bool {
        match self {
            JpegBuf::Gray(buf) => buf.wf(),
            JpegBuf::Gray16(buf) => buf.wf(),
            JpegBuf::Rgb(buf) => buf.wf(),
            JpegBuf::Cmyk(buf) => buf.wf(),
        }
    }

    /// The bytes of the pixels as they lie in memory.
    pub open spec fn memory(&self) -> Seq<u8> {
        match self {
            JpegBuf::Gray(buf) => buf.memory(),
            JpegBuf::Gray16(buf) => buf.memory(),
            JpegBuf::Rgb(buf) => buf.memory(),
            JpegBuf::Cmyk(buf) => buf.memory(),
        }
    }

    /// The bytes of the pixels as they lie in memory.
    pub fn to_bytes(&self) -> (bytes: Vec<u8>)
        ensures
            bytes@ == self.memory(),
    {
        match self {
            JpegBuf::Gray(buf) => buf.to_bytes(),
            JpegBuf::Gray16(buf) => buf.to_bytes(),
            JpegBuf::Rgb(buf) => buf.to_bytes(),
            JpegBuf::Cmyk(buf) => buf.to_bytes(),
        }
    }
}

impl Dimensions for JpegBuf {
    open spec fn spec_width(&self) -> usize {
        match self {
            JpegBuf::Gray(buf) => buf.w(),
            JpegBuf::Gray16(buf) => buf.w(),
            JpegBuf::Rgb(buf) => buf.w(),
            JpegBuf::Cmyk(buf) => buf.w(),
        }
    }

    open spec fn spec_height(&self) -> usize {
        match self {
            JpegBuf::Gray(buf) => buf.h(),
            JpegBuf::Gray16(buf) => buf.h(),
            JpegBuf::Rgb(buf) => buf.h(),
            JpegBuf::Cmyk(buf) => buf.h(),
        }
    }

    fn width(&self) -> (w: usize) {
        match self {
            JpegBuf::Gray(buf) => buf.width(),
            JpegBuf::Gray16(buf) => buf.width(),
            JpegBuf::Rgb(buf) => buf.width(),
            JpegBuf::Cmyk(buf) => buf.width(),
        }
    }

    fn height(&self) -> (h: usize) {
        match self {
            JpegBuf::Gray(buf) => buf.height(),
            JpegBuf::Gray16(buf) => buf.height(),
            JpegBuf::Rgb(buf) => buf.height(),
            JpegBuf::Cmyk(buf) => buf.height(),
        }
    }
}

impl Image for JpegBuf {
    type Pixel = JpegPix;

    open spec fn has_pixel(&self, x: usize, y: usize) -> bool {
        match self {
            JpegBuf::Gray(buf) => buf.has_pixel(x, y),
            JpegBuf::Gray16(buf) => buf.has_pixel(x, y),
            JpegBuf::Rgb(buf) => buf.has_pixel(x, y),
            JpegBuf::Cmyk(buf) => buf.has_pixel(x, y),
        }
    }

    open spec fn pixel_at(&self, x: usize, y: usize) -> JpegPix {
        match self {
            JpegBuf::Gray(buf) => JpegPix::Gray(buf.pixel_at(x, y)),
            JpegBuf::Gray16(buf) => JpegPix::Gray16(buf.pixel_at(x, y)),
            JpegBuf::Rgb(buf) => JpegPix::Rgb(buf.pixel_at(x, y)),
            JpegBuf::Cmyk(buf) => JpegPix::Cmyk(buf.pixel_at(x, y)),
        }
    }

    fn color_get(&self, x: usize, y: usize) -> (c: JpegPix) {
        match self {
            JpegBuf::Gray(buf) => JpegPix::Gray(buf.color_get(x, y)),
            JpegBuf::Gray16(buf) => JpegPix::Gray16(buf.color_get(x, y)),
            JpegBuf::Rgb(buf) => JpegPix::Rgb(buf.color_get(x, y)),
            JpegBuf::Cmyk(buf) => JpegPix::Cmyk(buf.color_get(x, y)),
        }
    }
}

impl ImageMut for JpegBuf {
    type Pixel = JpegPix;

    open spec fn can_set(&self, x: usize, y: usize) -> bool {
        match self {
            JpegBuf::Gray(buf) => buf.can_set(x, y),
            JpegBuf::Gray16(buf) => buf.can_set(x, y),
            JpegBuf::Rgb(buf) => buf.can_set(x, y),
            JpegBuf::Cmyk(buf) => buf.can_set(x, y),
        }
    }

    /// The image holds the same colour as before; a pixel of that colour is
    /// set as it is, a pixel of another is converted.
    open spec fn set_to(&self, before: &Self, x: usize, y: usize, color: JpegPix) -> bool {
        match (self, before) {
            (JpegBuf::Gray(after), JpegBuf::Gray(buf)) => match color {
                JpegPix::Gray(c) => after.set_to(buf, x, y, c),
                c => after.set_to(buf, x, y, <Gray as ConvertFrom<JpegPix, No>>::converted(c)),
            },
            (JpegBuf::Gray16(after), JpegBuf::Gray16(buf)) => match color {
                JpegPix::Gray16(c) => after.set_to(buf, x, y, c),
                c => after.set_to(buf, x, y, <Gray16<BigEndian> as ConvertFrom<JpegPix, No>>::converted(c)),
            },
            (JpegBuf::Rgb(after), JpegBuf::Rgb(buf)) => match color {
                JpegPix::Rgb(c) => after.set_to(buf, x, y, c),
                c => after.set_to(buf, x, y, <Rgb as ConvertFrom<JpegPix, No>>::converted(c)),
            },
            (JpegBuf::Cmyk(after), JpegBuf::Cmyk(buf)) => match color {
                JpegPix::Cmyk(c) => after.set_to(buf, x, y, c),
                c => after.set_to(buf, x, y, <Cmyk as ConvertFrom<JpegPix, No>>::converted(c)),
            },
            _ => false,
        }
    }

    fn color_set<C, ColorSpecialized>(&mut self, x: usize, y: usize, color: C) where
        C: ConvertInto<JpegPix, ColorSpecialized> + Color,
     {
        let converted = <C as ConvertInto<JpegPix, ColorSpecialized>>::convert_into(color);
        match self {
            JpegBuf::Gray(buf) => match converted {
                JpegPix::Gray(c) => buf.pixel_set(x, y, c),
                c => buf.color_set_generic(x, y, c),
            },
            JpegBuf::Gray16(buf) => match converted {
                JpegPix::Gray16(c) => buf.pixel_set(x, y, c),
                c => buf.color_set_generic(x, y, c),
            },
            JpegBuf::Rgb(buf) => match converted {
                JpegPix::Rgb(c) => buf.pixel_set(x, y, c),
                c => buf.color_set_generic(x, y, c),
            },
            JpegBuf::Cmyk(buf) => match converted {
                JpegPix::Cmyk(c) => buf.pixel_set(x, y, c),
                c => buf.color_set_generic(x, y, c),
            },
        }
    }
}

impl Color for JpegPix {
    open spec fn rgba(&self) -> (u32, u32, u32, u32) {
        match self {
            JpegPix::Gray(c) => c.rgba(),
            JpegPix::Gray16(c) => c.rgba(),
            JpegPix::Rgb(c) => c.rgba(),
            JpegPix::Cmyk(c) => c.rgba(),
        }
    }

    fn as_rgba(&self) -> (c: (u32, u32, u32, u32)) {
        match self {
            JpegPix::Gray(c) => c.as_rgba(),
            JpegPix::Gray16(c) => c.as_rgba(),
            JpegPix::Rgb(c) => c.as_rgba(),
            JpegPix::Cmyk(c) => c.as_rgba(),
        }
    }
}

impl JpegBuf {
    /// The image that a decoder has handed out as a pixel format, a size and
    /// the bytes of the pixels. The bytes have to be as many as the pixels
    /// take.
    pub fn from_decoded(format: PixelFormat, width: u16, height: u16, data: Vec<u8>) -> (r: Result<
        JpegBuf,
        DecodeError,
    >)
        ensures
            r is Ok <==> data@.len() == width * height * pixel_size(format),
            r is Err ==> r->Err_0 == DecodeError::Malformed,
            r is Ok ==> {
                let buf = r->Ok_0;
                &&& buf.wf()
                &&& buf.spec_width() == width
                &&& buf.spec_height() == height
                &&& match format {
                    PixelFormat::L8 => buf is Gray && buf->Gray_0.pixels() == pixels_of::<Gray>(
                        data@,
                        (width * height) as nat,
                    ),
                    PixelFormat::L16 => buf is Gray16 && buf->Gray16_0.pixels() == pixels_of::<
                        Gray16<BigEndian>,
                    >(data@, (width * height) as nat),
                    PixelFormat::RGB24 => buf is Rgb && buf->Rgb_0.pixels() == pixels_of::<Rgb>(
                        data@,
                        (width * height) as nat,
                    ),
                    PixelFormat::CMYK32 => buf is Cmyk && buf->Cmyk_0.pixels() == pixels_of::<Cmyk>(
                        data@,
                        (width * height) as nat,
                    ),
                }
            },
    {
        let w = width as usize;
        let h = height as usize;
        match format {
            PixelFormat::L8 => match RawPixBuf::from_vec(w, h, data) {
                Ok(buf) => Ok(JpegBuf::Gray(buf)),
                Err(_) => Err(DecodeError::Malformed),
            },
            PixelFormat::L16 => match RawPixBuf::from_vec(w, h, data) {
                Ok(buf) => Ok(JpegBuf::Gray16(buf)),
                Err(_) => Err(DecodeError::Malformed),
            },
            PixelFormat::RGB24 => match RawPixBuf::from_vec(w, h, data) {
                Ok(buf) => Ok(JpegBuf::Rgb(buf)),
                Err(_) => Err(DecodeError::Malformed),
            },
            PixelFormat::CMYK32 => match RawPixBuf::from_vec(w, h, data) {
                Ok(buf) => Ok(JpegBuf::Cmyk(buf)),
                Err(_) => Err(DecodeError::Malformed),
            },
        }
    }
}

} // verus!
