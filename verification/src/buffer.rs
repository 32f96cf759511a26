//! Images as pixels in row-major order.

use crate::color::convert::{ConvertFrom, ConvertInto};
use crate::color::Color;
use crate::image::{Dimensions, Image, ImageMut};
use crate::specialized::No;
use vstd::prelude::*;

verus! {

/// A pixel with a fixed layout in memory.
pub trait RawPixel: Copy {
    /// Number of bytes that a pixel takes in memory.
    spec fn spec_size() -> usize;

    /// The bytes of the pixel in memory.
    spec fn memory(self) -> Seq<u8>;

    /// The pixel whose bytes in memory are `bytes`.
    spec fn from_memory(bytes: Seq<u8>) -> Self;

    /// A pixel has as many bytes as its type says, and is found again from
    /// them.
    proof fn lemma_memory(self)
        ensures
            self.memory().len() == Self::spec_size(),
            Self::from_memory(self.memory()) == self,
    ;

    /// The bytes of a pixel are found again from the pixel.
    proof fn lemma_from_memory(bytes: Seq<u8>)
        requires
            bytes.len() == Self::spec_size(),
        ensures
            Self::from_memory(bytes).memory() == bytes,
    ;

    /// The pixel whose bytes in memory are all zero.
    spec fn spec_zeroed() -> Self;

    /// The bytes of the zeroed pixel are all zero.
    proof fn lemma_zeroed()
        ensures
            Self::spec_zeroed().memory() == Seq::new(Self::spec_size() as nat, |i: int| 0u8),
    ;

    /// The pixel whose bytes in memory are all zero.
    fn zeroed() -> (p: Self)
        ensures
            p == Self::spec_zeroed(),
    ;

    /// Number of bytes that a pixel takes in memory.
    fn size() -> (n: usize)
        ensures
            n == Self::spec_size(),
            n > 0,
    ;

    /// Appends the bytes of the pixel to `out`.
    fn store(self, out: &mut Vec<u8>)
        ensures
            final(out)@ == old(out)@ + self.memory(),
    ;

    /// The pixel whose bytes stand in `bytes` from `at` on.
    fn load(bytes: &[u8], at: usize) -> (p: Self)
        requires
            at + Self::spec_size() <= bytes@.len(),
        ensures
            p == Self::from_memory(bytes@.subrange(at as int, at + Self::spec_size())),
    ;
}

/// The bytes of pixels that lie one after another in memory.
pub open spec fn memory_of<T: RawPixel>(pixels: Seq<T>) -> Seq<u8>
    decreases pixels.len(),
{
    if pixels.len() == 0 {
        Seq::empty()
    } else {
        memory_of(pixels.drop_last()) + pixels.last().memory()
    }
}

/// The pixels whose bytes lie one after another in `bytes`.
pub open spec fn pixels_of<T: RawPixel>(bytes: Seq<u8>, count: nat) -> Seq<T> {
    Seq::new(
        count,
        |i: int| T::from_memory(bytes.subrange(i * T::spec_size(), (i + 1) * T::spec_size())),
    )
}

/// The bytes of `n` pixels are `n` times the bytes of one.
pub proof fn lemma_memory_len<T: RawPixel>(pixels: Seq<T>)
    ensures
        memory_of(pixels).len() == pixels.len() * T::spec_size(),
    decreases pixels.len(),
{
    if pixels.len() > 0 {
        lemma_memory_len(pixels.drop_last());
        pixels.last().lemma_memory();
        assert(pixels.len() * T::spec_size() == (pixels.len() - 1) * T::spec_size()
            + T::spec_size()) by (nonlinear_arith);
    }
}

/// Pixels are found again from their bytes.
pub proof fn lemma_pixels_of_memory<T: RawPixel>(pixels: Seq<T>)
    ensures
        pixels_of::<T>(memory_of(pixels), pixels.len()) == pixels,
    decreases pixels.len(),
{
    let size = T::spec_size() as int;
    let bytes = memory_of(pixels);
    let n = pixels.len() as int;
    if n > 0 {
        let front = pixels.drop_last();
        lemma_pixels_of_memory(front);
        lemma_memory_len(front);
        lemma_memory_len(pixels);
        pixels.last().lemma_memory();
        let fb = memory_of(front);
        assert(fb.len() == (n - 1) * size && bytes.len() == n * size) by (nonlinear_arith)
            requires
                fb.len() == front.len() * T::spec_size(),
                bytes.len() == pixels.len() * T::spec_size(),
                front.len() == n - 1,
                pixels.len() == n,
                size == T::spec_size(),
        ;
        assert(bytes =~= fb + pixels.last().memory());
        assert forall|i: int| 0 <= i < n implies pixels_of::<T>(bytes, n as nat)[i]
            == pixels[i] by {
            assert(0 <= i * size && (i + 1) * size <= n * size) by (nonlinear_arith)
                requires
                    0 <= i < n,
                    size >= 0,
            ;
            if i < n - 1 {
                assert((i + 1) * size <= (n - 1) * size) by (nonlinear_arith)
                    requires
                        i < n - 1,
                        size >= 0,
                ;
                assert(0 <= i * size);
                assert((i + 1) * size <= fb.len());
                assert(i * size <= (i + 1) * size) by (nonlinear_arith)
                    requires
                        size >= 0,
                ;
                assert(bytes.subrange(i * size, (i + 1) * size) =~= fb.subrange(
                    i * size,
                    (i + 1) * size,
                ));
                assert(pixels_of::<T>(fb, (n - 1) as nat)[i] == front[i]);
            } else {
                assert((n - 1) * size + size == n * size) by (nonlinear_arith);
                assert(bytes.subrange(i * size, (i + 1) * size) =~= pixels.last().memory());
            }
        }
    }
    assert(pixels_of::<T>(bytes, n as nat) =~= pixels);
}

/// Position of the pixel at `(x, y)` in the row-major order of an image of
/// the given width.
pub open spec fn place(width: usize, x: usize, y: usize) -> int {
    y * width + x
}

/// Pixels in row-major order, with the width and the height of the image.
pub struct RawPixBuf<T> {
    width: usize,
    height: usize,
    buf: Vec<T>,
}

/// A view of a buffer as its pixels.
pub trait AsTyped {
    type Pixel: Color;

    /// The pixels in row-major order.
    spec fn typed(&self) -> Seq<Self::Pixel>;

    fn as_typed(&self) -> (pixels: &[Self::Pixel])
        ensures
            pixels@ == self.typed(),
    ;
}

/// A view of a buffer as its pixels, which can be set.
pub trait AsTypedMut {
    type Pixel: Color;

    /// The pixels in row-major order.
    spec fn typed_mut(&self) -> Seq<Self::Pixel>;

    /// The width and the height stay as they are when pixels are set.
    spec fn same_size(&self, before: &Self) -> bool;

    fn as_typed_mut(&mut self) -> (pixels: &mut [Self::Pixel])
        ensures
            pixels@ == old(self).typed_mut(),
            final(self).typed_mut() == final(pixels)@,
            final(self).same_size(old(self)),
    ;
}

impl<T> RawPixBuf<T> {
    /// The pixels in row-major order.
    pub closed spec fn pixels(&self) -> Seq<T> {
        self.buf@
    }

    /// Width of the image.
    pub closed spec fn w(&self) -> usize {
        self.width
    }

    /// Height of the image.
    pub closed spec fn h(&self) -> usize {
        self.height
    }

    /// There are as many pixels as the width and the height say.
    pub open spec fn wf(&self) -> bool {
        self.pixels().len() == self.w() * self.h()
    }

    /// Where the pixel at `(x, y)` stands among the pixels.
    pub open spec fn offset(&self, x: usize, y: usize) -> int {
        place(self.w(), x, y)
    }

    /// A pixel inside the image stands among the pixels.
    pub proof fn lemma_offset(&self, x: usize, y: usize)
        requires
            self.wf(),
            x < self.w(),
            y < self.h(),
        ensures
            0 <= self.offset(x, y) < self.pixels().len(),
    {
        let w = self.w() as int;
        let h = self.h() as int;
        assert(0 <= y * w && y * w + x < w * h) by (nonlinear_arith)
            requires
                0 <= x < w,
                0 <= y < h,
        ;
    }

    /// The image of the given size whose pixels are `buf`.
    pub fn with_pixels(width: usize, height: usize, buf: Vec<T>) -> (b: Self)
        requires
            buf@.len() == width * height,
        ensures
            b.wf(),
            b.w() == width,
            b.h() == height,
            b.pixels() == buf@,
    {
        RawPixBuf { width, height, buf }
    }

    /// The image of the given size whose pixels are `buf`, or `buf` where
    /// their number is not the width times the height.
    pub fn from_pixels(width: usize, height: usize, buf: Vec<T>) -> (r: Result<Self, Vec<T>>)
        ensures
            r is Ok <==> buf@.len() == width * height,
            r is Ok ==> r->Ok_0.wf() && r->Ok_0.w() == width && r->Ok_0.h() == height
                && r->Ok_0.pixels() == buf@,
            r is Err ==> r->Err_0 == buf,
    {
        let len = buf.len();
        match width.checked_mul(height) {
            Some(n) => {
                if len == n {
                    Ok(RawPixBuf { width, height, buf })
                } else {
                    Err(buf)
                }
            },
            None => Err(buf),
        }
    }
}

impl<T: Copy> Clone for RawPixBuf<T> {
    fn clone(&self) -> (b: Self)
        ensures
            b.w() == self.w(),
            b.h() == self.h(),
            b.pixels() == self.pixels(),
    {
        let mut buf: Vec<T> = Vec::new();
        let n = self.buf.len();
        let mut i: usize = 0;
        while i < n
            invariant
                i <= n,
                n == self.buf@.len(),
                buf@ == self.buf@.take(i as int),
            decreases n - i,
        {
            buf.push(self.buf[i]);
            assert(buf@ =~= self.buf@.take(i + 1));
            i += 1;
        }
        assert(self.buf@.take(n as int) =~= self.buf@);
        RawPixBuf { width: self.width, height: self.height, buf }
    }
}

impl<T: Color> RawPixBuf<T> {
    /// The image `img` with every pixel converted to the colour `T`.
    pub fn from_image<I: Image + Dimensions>(img: &I) -> (b: Self) where T: ConvertFrom<I::Pixel, No>
        requires
            img.spec_width() * img.spec_height() <= usize::MAX,
            forall|x: usize, y: usize|
                x < img.spec_width() && y < img.spec_height() ==> #[trigger] img.has_pixel(x, y),
        ensures
            b.wf(),
            b.w() == img.spec_width(),
            b.h() == img.spec_height(),
            <T as ConvertFrom<I::Pixel, No>>::obeys_convert_spec() ==> forall|x: usize, y: usize|
                x < img.spec_width() && y < img.spec_height() ==> b.pixels()[#[trigger] b.offset(
                    x,
                    y,
                )] == <T as ConvertFrom<I::Pixel, No>>::converted(img.pixel_at(x, y)),
    {
        let (width, height) = img.dimensions();
        let mut buf: Vec<T> = Vec::new();
        let mut y: usize = 0;
        while y < height
            invariant
                y <= height,
                width == img.spec_width(),
                height == img.spec_height(),
                forall|x: usize, y: usize|
                    x < img.spec_width() && y < img.spec_height() ==> #[trigger] img.has_pixel(
                        x,
                        y,
                    ),
                buf@.len() == y * width,
                <T as ConvertFrom<I::Pixel, No>>::obeys_convert_spec() ==> forall|i: usize, j: usize|
                    i < width && j < y ==> buf@[#[trigger] place(width, i, j)] == <T as ConvertFrom<
                        I::Pixel,
                        No,
                    >>::converted(img.pixel_at(i, j)),
            decreases height - y,
        {
            let mut x: usize = 0;
            while x < width
                invariant
                    x <= width,
                    y < height,
                    width == img.spec_width(),
                    height == img.spec_height(),
                    forall|x: usize, y: usize|
                        x < img.spec_width() && y < img.spec_height() ==> #[trigger] img.has_pixel(
                            x,
                            y,
                        ),
                    buf@.len() == y * width + x,
                    <T as ConvertFrom<I::Pixel, No>>::obeys_convert_spec() ==> forall|
                        i: usize,
                        j: usize,
                    |
                        i < width && (j < y || (j == y && i < x)) ==> buf@[#[trigger] place(
                            width,
                            i,
                            j,
                        )] == <T as ConvertFrom<I::Pixel, No>>::converted(img.pixel_at(i, j)),
                decreases width - x,
            {
                let c = img.color_get(x, y);
                let c: T = <T as ConvertFrom<I::Pixel, No>>::convert_from(c);
                let ghost before = buf@;
                buf.push(c);
                proof {
                    assert forall|i: usize, j: usize|
                        i < width && (j < y || (j == y && i < x + 1)) implies 0 <= #[trigger] place(
                            width,
                            i,
                            j,
                        ) < before.len() + 1 && (place(width, i, j) == before.len() <==> (j == y
                            && i == x)) by {
                        lemma_row_major(i as int, j as int, x as int, y as int, width as int);
                    }
                }
                x += 1;
            }
            proof {
                assert((y + 1) * width == y * width + width) by (nonlinear_arith);
            }
            y += 1;
        }
        proof {
            assert(height * width == width * height) by (nonlinear_arith);
        }
        RawPixBuf { width, height, buf }
    }
}

/// Row-major order: a place before another, in the same image, has a lower
/// position, and different places have different positions.
pub proof fn lemma_row_major(i: int, j: int, x: int, y: int, width: int)
    requires
        0 <= i < width,
        0 <= x < width,
        0 <= j,
        0 <= y,
        j < y || (j == y && i <= x),
    ensures
        0 <= j * width + i <= y * width + x,
        j * width + i == y * width + x <==> (j == y && i == x),
{
    if j < y {
        assert((j + 1) * width <= y * width) by (nonlinear_arith)
            requires
                j + 1 <= y,
                width > 0,
        ;
        assert((j + 1) * width == j * width + width) by (nonlinear_arith);
    }
    assert(0 <= j * width) by (nonlinear_arith)
        requires
            0 <= j,
            0 <= width,
    ;
}

impl<T: Copy> RawPixBuf<T> {
    /// The image of the given size whose pixels are all `value`.
    pub fn filled(width: usize, height: usize, value: T) -> (b: Self)
        requires
            width * height <= usize::MAX,
        ensures
            b.wf(),
            b.w() == width,
            b.h() == height,
            forall|i: int| 0 <= i < b.pixels().len() ==> b.pixels()[i] == value,
    {
        let n = width * height;
        let mut buf: Vec<T> = Vec::new();
        let mut i: usize = 0;
        while i < n
            invariant
                i <= n,
                buf@.len() == i,
                forall|j: int| 0 <= j < i ==> buf@[j] == value,
            decreases n - i,
        {
            buf.push(value);
            i += 1;
        }
        RawPixBuf { width, height, buf }
    }
}

/// The bytes of zeroed pixels are all zero.
pub proof fn lemma_zeroed_memory<T: RawPixel>(pixels: Seq<T>)
    requires
        forall|i: int| 0 <= i < pixels.len() ==> pixels[i] == T::spec_zeroed(),
    ensures
        memory_of(pixels) == Seq::new(pixels.len() * T::spec_size() as nat, |i: int| 0u8),
    decreases pixels.len(),
{
    lemma_memory_len(pixels);
    if pixels.len() > 0 {
        lemma_zeroed_memory(pixels.drop_last());
        lemma_memory_len(pixels.drop_last());
        T::lemma_zeroed();
    }
    assert(memory_of(pixels) =~= Seq::new(pixels.len() * T::spec_size() as nat, |i: int| 0u8));
}

impl<T: RawPixel> RawPixBuf<T> {
    /// The image of the given size whose memory is all zero.
    pub fn new(width: usize, height: usize) -> (b: Self)
        requires
            width * height <= usize::MAX,
        ensures
            b.wf(),
            b.w() == width,
            b.h() == height,
            forall|i: int| 0 <= i < b.pixels().len() ==> b.pixels()[i] == T::spec_zeroed(),
            b.memory() == Seq::new((width * height * T::spec_size()) as nat, |i: int| 0u8),
    {
        let b = Self::filled(width, height, T::zeroed());
        proof {
            lemma_zeroed_memory(b.pixels());
        }
        b
    }

    /// As [`Self::new`], for every size: `None` where the number of pixels
    /// is above what a machine word holds.
    pub fn try_new(width: usize, height: usize) -> (r: Option<Self>)
        ensures
            r is Some <==> width * height <= usize::MAX,
            r is Some ==> r->Some_0.wf() && r->Some_0.w() == width && r->Some_0.h() == height
                && r->Some_0.memory() == Seq::new(
                (width * height * T::spec_size()) as nat,
                |i: int| 0u8,
            ),
    {
        match width.checked_mul(height) {
            Some(_) => Some(Self::new(width, height)),
            None => None,
        }
    }

    /// The bytes of the pixels as they lie in memory.
    pub open spec fn memory(&self) -> Seq<u8> {
        memory_of(self.pixels())
    }

    /// The image of the given size whose pixels lie in `buf` as in memory,
    /// or `buf` where it has not as many bytes as the pixels take.
    #[inline]
    pub fn from_vec(width: usize, height: usize, buf: Vec<u8>) -> (r: Result<Self, Vec<u8>>)
        ensures
            r is Ok <==> buf@.len() == width * height * T::spec_size(),
            r is Ok ==> r->Ok_0.wf() && r->Ok_0.w() == width && r->Ok_0.h() == height
                && r->Ok_0.pixels() == pixels_of::<T>(buf@, (width * height) as nat),
            r is Err ==> r->Err_0 == buf,
    {
        match Self::from_slice(width, height, buf.as_slice()) {
            Some(b) => Ok(b),
            None => Err(buf),
        }
    }

    /// The image of the given size whose pixels lie in `buf` as in memory,
    /// where it has as many bytes as the pixels take.
    pub fn from_slice(width: usize, height: usize, buf: &[u8]) -> (r: Option<Self>)
        ensures
            r is Some <==> buf@.len() == width * height * T::spec_size(),
            r is Some ==> r->Some_0.wf() && r->Some_0.w() == width && r->Some_0.h() == height
                && r->Some_0.pixels() == pixels_of::<T>(buf@, (width * height) as nat),
    {
        let size = T::size();
        let len = buf.len();
        let count = match width.checked_mul(height) {
            Some(n) => n,
            None => {
                assert(width * height * size > usize::MAX) by (nonlinear_arith)
                    requires
                        width * height > usize::MAX,
                        size > 0,
                ;
                return None;
            },
        };
        let expected_len = match count.checked_mul(size) {
            Some(n) => n,
            None => {
                return None;
            },
        };
        if len != expected_len {
            return None;
        }
        let mut pixels: Vec<T> = Vec::new();
        let mut i: usize = 0;
        while i < count
            invariant
                i <= count,
                size == T::spec_size(),
                size > 0,
                buf@.len() == count * size,
                count * size <= usize::MAX,
                pixels@.len() == i,
                forall|j: int|
                    0 <= j < i ==> pixels@[j] == T::from_memory(
                        buf@.subrange(j * size, (j + 1) * size),
                    ),
            decreases count - i,
        {
            assert(0 <= i * size && (i + 1) * size <= count * size && (i + 1) * size == i * size
                + size) by (nonlinear_arith)
                requires
                    0 <= i < count,
                    size > 0,
            ;
            let p = T::load(buf, i * size);
            pixels.push(p);
            i += 1;
        }
        assert(pixels@ =~= pixels_of::<T>(buf@, count as nat));
        Some(RawPixBuf { width, height, buf: pixels })
    }

    /// The bytes of the pixels as they lie in memory.
    pub fn to_bytes(&self) -> (bytes: Vec<u8>)
        ensures
            bytes@ == self.memory(),
    {
        let mut bytes: Vec<u8> = Vec::new();
        let n = self.buf.len();
        let mut i: usize = 0;
        while i < n
            invariant
                i <= n,
                n == self.buf@.len(),
                bytes@ == memory_of(self.buf@.take(i as int)),
            decreases n - i,
        {
            let p = self.buf[i];
            p.store(&mut bytes);
            proof {
                let longer = self.buf@.take(i + 1);
                assert(longer.drop_last() =~= self.buf@.take(i as int));
                assert(longer.last() == p);
            }
            i += 1;
        }
        assert(self.buf@.take(n as int) =~= self.buf@);
        bytes
    }
}

impl<C: Color> AsTyped for RawPixBuf<C> {
    type Pixel = C;

    open spec fn typed(&self) -> Seq<C> {
        self.pixels()
    }

    fn as_typed(&self) -> (pixels: &[C]) {
        self.buf.as_slice()
    }
}

impl<C: Color> AsTypedMut for RawPixBuf<C> {
    type Pixel = C;

    open spec fn typed_mut(&self) -> Seq<C> {
        self.pixels()
    }

    open spec fn same_size(&self, before: &Self) -> bool {
        self.w() == before.w() && self.h() == before.h()
    }

    fn as_typed_mut(&mut self) -> (pixels: &mut [C]) {
        self.buf.as_mut_slice()
    }
}

impl<T> Dimensions for RawPixBuf<T> {
    open spec fn spec_width(&self) -> usize {
        self.w()
    }

    open spec fn spec_height(&self) -> usize {
        self.h()
    }

    fn width(&self) -> (w: usize) {
        self.width
    }

    fn height(&self) -> (h: usize) {
        self.height
    }
}

impl<C: Copy + Color> Image for RawPixBuf<C> {
    type Pixel = C;

    open spec fn has_pixel(&self, x: usize, y: usize) -> bool {
        self.wf() && x < self.w() && y < self.h()
    }

    open spec fn pixel_at(&self, x: usize, y: usize) -> C {
        self.pixels()[self.offset(x, y)]
    }

    fn color_get(&self, x: usize, y: usize) -> (c: C) {
        let n = self.buf.len();
        proof {
            self.lemma_offset(x, y);
            assert(y * self.width <= y * self.width + x < n);
        }
        self.buf[y * self.width + x]
    }
}

impl<T: Color> ImageMut for RawPixBuf<T> {
    type Pixel = T;

    open spec fn can_set(&self, x: usize, y: usize) -> bool {
        self.wf() && x < self.w() && y < self.h()
    }

    open spec fn set_to(&self, before: &Self, x: usize, y: usize, color: T) -> bool {
        &&& self.w() == before.w()
        &&& self.h() == before.h()
        &&& self.pixels() == before.pixels().update(before.offset(x, y), color)
    }

    fn color_set<C, ColorSpecialized>(&mut self, x: usize, y: usize, color: C) where
        C: ConvertInto<T, ColorSpecialized> + Color,
     {
        let n = self.buf.len();
        proof {
            self.lemma_offset(x, y);
            assert(y * self.width <= y * self.width + x < n);
        }
        let converted: T = color.convert_into();
        let i = y * self.width + x;
        self.buf.set(i, converted);
    }
}

} // verus!
