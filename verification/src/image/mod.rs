//! Images and the formats that hold them.

pub mod farbfeld;
pub mod jpeg;
pub mod png;
pub mod webp;

use crate::color::convert::ConvertInto;
use crate::color::Color;
use crate::specialized::{For, No};
use vstd::prelude::*;

verus! {

/// Whether the bytes `magic` start as the pattern `pattern` asks: they are
/// no fewer, and where the pattern does not hold a question mark they are the
/// bytes of the pattern.
pub open spec fn magic_matches(pattern: Seq<u8>, magic: Seq<u8>) -> bool {
    &&& pattern.len() <= magic.len()
    &&& forall|i: int|
        0 <= i < pattern.len() ==> magic[i] == #[trigger] pattern[i] || pattern[i] == 0x3f
}

/// A file format.
pub trait Format {
    /// The format id.
    spec fn spec_id(&self) -> Seq<char>;

    /// The magic string, in which a question mark stands for any byte.
    spec fn spec_magic(&self) -> Seq<u8>;

    /// Should return a format id, such as:
    ///
    /// - feim:ff
    /// - feim:png
    /// - feim:jpeg
    fn id(&self) -> (id: &'static str)
        ensures
            id@ == self.spec_id(),
    ;

    /// Returns the magic string situated at the start of the image file.
    fn magic(&self) -> (magic: &'static [u8])
        ensures
            magic@ == self.spec_magic(),
    ;

    /// Compares the format's magic string against another byte string.
    fn is_valid_magic(&self, magic: &[u8]) -> (valid: bool)
        ensures
            valid == magic_matches(self.spec_magic(), magic@),
    {
        let pattern = self.magic();
        if magic.len() < pattern.len() {
            return false;
        }
        let mut i: usize = 0;
        while i < pattern.len()
            invariant
                i <= pattern.len(),
                pattern.len() <= magic.len(),
                pattern@ == self.spec_magic(),
                forall|j: int|
                    0 <= j < i ==> magic@[j] == #[trigger] pattern@[j] || pattern@[j] == 0x3f,
            decreases pattern.len() - i,
        {
            if !(pattern[i] == magic[i] || pattern[i] == 0x3f) {
                assert(!(magic@[i as int] == pattern@[i as int] || pattern@[i as int] == 0x3f));
                return false;
            }
            i += 1;
        }
        true
    }
}

impl<'a, F: Format + ?Sized> Format for &'a F {
    open spec fn spec_id(&self) -> Seq<char> {
        (**self).spec_id()
    }

    open spec fn spec_magic(&self) -> Seq<u8> {
        (**self).spec_magic()
    }

    fn id(&self) -> (id: &'static str) {
        (**self).id()
    }

    fn magic(&self) -> (magic: &'static [u8]) {
        (**self).magic()
    }
}

/// Something with a width and a height.
pub trait Dimensions {
    spec fn spec_width(&self) -> usize;

    spec fn spec_height(&self) -> usize;

    fn width(&self) -> (w: usize)
        ensures
            w == self.spec_width(),
    ;

    fn height(&self) -> (h: usize)
        ensures
            h == self.spec_height(),
    ;

    fn dimensions(&self) -> (d: (usize, usize))
        ensures
            d == (self.spec_width(), self.spec_height()),
    {
        let w = self.width();
        let h = self.height();
        (w, h)
    }
}

/// An image whose pixels can be read.
pub trait Image<Specialized = No> {
    type Pixel: Color;

    /// Whether the image has a pixel at `(x, y)`.
    spec fn has_pixel(&self, x: usize, y: usize) -> bool;

    /// The pixel at `(x, y)`.
    spec fn pixel_at(&self, x: usize, y: usize) -> Self::Pixel;

    fn color_get(&self, x: usize, y: usize) -> (c: Self::Pixel)
        requires
            self.has_pixel(x, y),
        ensures
            c == self.pixel_at(x, y),
    ;
}

/// An image whose pixels can be set.
pub trait ImageMut<Specialized = No> {
    type Pixel: Color;

    /// Whether the image has a pixel at `(x, y)` that can be set.
    spec fn can_set(&self, x: usize, y: usize) -> bool;

    /// Whether the image is `before` with the pixel at `(x, y)` set to
    /// `color`.
    spec fn set_to(&self, before: &Self, x: usize, y: usize, color: Self::Pixel) -> bool;

    fn color_set<C, ColorSpecialized>(&mut self, x: usize, y: usize, color: C) where
        C: ConvertInto<Self::Pixel, ColorSpecialized> + Color,

        requires
            old(self).can_set(x, y),
        ensures
            C::obeys_convert_into_spec() ==> final(self).set_to(
                old(self),
                x,
                y,
                color.converted_into(),
            ),
    ;

    fn color_set_generic<C>(&mut self, x: usize, y: usize, color: C) where
        C: ConvertInto<Self::Pixel, No> + Color,

        requires
            old(self).can_set(x, y),
        ensures
            C::obeys_convert_into_spec() ==> final(self).set_to(
                old(self),
                x,
                y,
                color.converted_into(),
            ),
    {
        self.color_set::<_, No>(x, y, color)
    }

    fn pixel_set(&mut self, x: usize, y: usize, color: Self::Pixel)
        requires
            old(self).can_set(x, y),
        ensures
            final(self).set_to(old(self), x, y, color),
    {
        self.color_set::<_, For<Self::Pixel>>(x, y, color)
    }
}

/// One of the formats that this library knows.
#[derive(Clone, Copy, Debug, PartialEq, Eq, Structural)]
pub enum BuiltInFormat {
    Farbfeld,
    Jpeg,
    Png,
    Webp,
}

impl Format for BuiltInFormat {
    open spec fn spec_id(&self) -> Seq<char> {
        match self {
            BuiltInFormat::Farbfeld => farbfeld::Farbfeld.spec_id(),
            BuiltInFormat::Jpeg => jpeg::Jpeg.spec_id(),
            BuiltInFormat::Png => png::Png.spec_id(),
            BuiltInFormat::Webp => webp::Webp.spec_id(),
        }
    }

    open spec fn spec_magic(&self) -> Seq<u8> {
        match self {
            BuiltInFormat::Farbfeld => farbfeld::Farbfeld.spec_magic(),
            BuiltInFormat::Jpeg => jpeg::Jpeg.spec_magic(),
            BuiltInFormat::Png => png::Png.spec_magic(),
            BuiltInFormat::Webp => webp::Webp.spec_magic(),
        }
    }

    fn id(&self) -> (id: &'static str) {
        match self {
            BuiltInFormat::Farbfeld => farbfeld::Farbfeld.id(),
            BuiltInFormat::Jpeg => jpeg::Jpeg.id(),
            BuiltInFormat::Png => png::Png.id(),
            BuiltInFormat::Webp => webp::Webp.id(),
        }
    }

    fn magic(&self) -> (magic: &'static [u8]) {
        match self {
            BuiltInFormat::Farbfeld => farbfeld::Farbfeld.magic(),
            BuiltInFormat::Jpeg => jpeg::Jpeg.magic(),
            BuiltInFormat::Png => png::Png.magic(),
            BuiltInFormat::Webp => webp::Webp.magic(),
        }
    }
}

/// The formats that this library knows, in the order in which they are
/// tried.
pub const BUILT_IN_FORMATS: [BuiltInFormat; 4] = [
    BuiltInFormat::Farbfeld,
    BuiltInFormat::Jpeg,
    BuiltInFormat::Png,
    BuiltInFormat::Webp,
];

/// The formats that this library knows, in the order in which they are
/// tried: farbfeld, JPEG, PNG and WebP.
pub fn built_in_formats() -> (formats: &'static [BuiltInFormat])
    ensures
        formats@ == seq![
            BuiltInFormat::Farbfeld,
            BuiltInFormat::Jpeg,
            BuiltInFormat::Png,
            BuiltInFormat::Webp,
        ],
{
    assert(BUILT_IN_FORMATS@ =~= seq![
        BuiltInFormat::Farbfeld,
        BuiltInFormat::Jpeg,
        BuiltInFormat::Png,
        BuiltInFormat::Webp,
    ]);
    &BUILT_IN_FORMATS
}

/// The ids of the formats that this library knows, which differ from each
/// other.
pub proof fn lemma_built_in_ids()
    ensures
        BuiltInFormat::Farbfeld.spec_id() == "feim:ff"@,
        BuiltInFormat::Jpeg.spec_id() == "feim:jpeg"@,
        BuiltInFormat::Png.spec_id() == "feim:png"@,
        BuiltInFormat::Webp.spec_id() == "feim:webp"@,
        forall|a: BuiltInFormat, b: BuiltInFormat| a.spec_id() == b.spec_id() ==> a == b,
{
    reveal_strlit("feim:ff");
    reveal_strlit("feim:jpeg");
    reveal_strlit("feim:png");
    reveal_strlit("feim:webp");
    assert("feim:ff"@.len() == 7 && "feim:jpeg"@.len() == 9 && "feim:png"@.len() == 8
        && "feim:webp"@.len() == 9);
    assert("feim:jpeg"@[5] == 'j' && "feim:webp"@[5] == 'w');
}

impl BuiltInFormat {
    /// The first of farbfeld, JPEG, PNG and WebP whose magic string the
    /// bytes start with.
    pub open spec fn detected(buf: Seq<u8>) -> Option<BuiltInFormat> {
        if magic_matches(farbfeld::MAGIC@, buf) {
            Some(BuiltInFormat::Farbfeld)
        } else if magic_matches(jpeg::MAGIC@, buf) {
            Some(BuiltInFormat::Jpeg)
        } else if magic_matches(png::MAGIC@, buf) {
            Some(BuiltInFormat::Png)
        } else if magic_matches(webp::MAGIC@, buf) {
            Some(BuiltInFormat::Webp)
        } else {
            None
        }
    }

    /// The format of a file that starts with the bytes `buf`.
    pub fn detect(buf: &[u8]) -> (f: Option<BuiltInFormat>)
        ensures
            f == Self::detected(buf@),
    {
        if farbfeld::Farbfeld.is_valid_magic(buf) {
            Some(BuiltInFormat::Farbfeld)
        } else if jpeg::Jpeg.is_valid_magic(buf) {
            Some(BuiltInFormat::Jpeg)
        } else if png::Png.is_valid_magic(buf) {
            Some(BuiltInFormat::Png)
        } else if webp::Webp.is_valid_magic(buf) {
            Some(BuiltInFormat::Webp)
        } else {
            None
        }
    }
}

} // verus!
