//! Small image effects, as the command line tools of this library apply them.

use crate::buffer::{lemma_row_major, place, RawPixBuf};
use crate::byteorder::be16;
use crate::color::convert::ConvertFrom;
use crate::color::{luma8, Color, Gray, Nrgba64, Nrgba64Be};
use crate::buffer::AsTyped;
use crate::image::{Dimensions, Image, ImageMut};
use crate::prng::{drawn, seeded, stepped, State};
use std::marker::PhantomData;
use vstd::prelude::*;
use vstd::std_specs::convert::FromSpec;

verus! {

/// The colour with red, green and blue turned to what is missing to full
/// light, and the same alpha.
pub open spec fn inverted(c: Nrgba64Be) -> Nrgba64Be {
    Nrgba64 {
        r: be16(be16(c.r) ^ 0xffff),
        g: be16(be16(c.g) ^ 0xffff),
        b: be16(be16(c.b) ^ 0xffff),
        a: be16(be16(c.a)),
        _endianness: PhantomData,
    }
}

/// Turns every pixel of an image to its negative.
pub fn invert(im: RawPixBuf<Nrgba64Be>) -> (r: RawPixBuf<Nrgba64Be>)
    requires
        im.wf(),
    ensures
        r.wf(),
        r.w() == im.w(),
        r.h() == im.h(),
        forall|k: int| 0 <= k < r.pixels().len() ==> #[trigger] r.pixels()[k] == inverted(
            im.pixels()[k],
        ),
{
    let mut im = im;
    let ghost before = im;
    let (width, height) = im.dimensions();
    let mut y: usize = 0;
    while y < height
        invariant
            y <= height,
            im.wf(),
            im.w() == width,
            im.h() == height,
            before.w() == width,
            before.h() == height,
            before.wf(),
            forall|k: int|
                0 <= k < place(width, 0, y) ==> #[trigger] im.pixels()[k] == inverted(
                    before.pixels()[k],
                ),
            forall|k: int|
                place(width, 0, y) <= k < im.pixels().len() ==> #[trigger] im.pixels()[k]
                    == before.pixels()[k],
        decreases height - y,
    {
        let mut x: usize = 0;
        while x < width
            invariant
                x <= width,
                y < height,
                im.wf(),
                im.w() == width,
                im.h() == height,
                before.w() == width,
                before.h() == height,
                before.wf(),
                forall|k: int|
                    0 <= k < place(width, x, y) ==> #[trigger] im.pixels()[k] == inverted(
                        before.pixels()[k],
                    ),
                forall|k: int|
                    place(width, x, y) <= k < im.pixels().len() ==> #[trigger] im.pixels()[k]
                        == before.pixels()[k],
            decreases width - x,
        {
            proof {
                im.lemma_offset(x, y);
            }
            let c = im.color_get(x, y);
            im.pixel_set(x, y, Nrgba64::be(c.r() ^ 0xffff, c.g() ^ 0xffff, c.b() ^ 0xffff, c.a()));
            x += 1;
        }
        proof {
            assert((y + 1) * width == y * width + width) by (nonlinear_arith);
        }
        y += 1;
    }
    proof {
        assert(height * width == width * height) by (nonlinear_arith);
    }
    im
}

/// How many rows above its own a pixel is taken from: the height of the
/// image over 255, times the luminance of the pixel, over 8.
pub open spec fn lift(height: usize, c: Nrgba64Be) -> int {
    ((height as int / 255) * (luma8(c.rgba().0, c.rgba().1, c.rgba().2) as int)) / 8
}

/// The row that the pixel at `(x, y)` is taken from: its own, lifted by
/// [`lift`], but not above the first.
#[verifier::opaque]
pub open spec fn lifted_row(orig: &RawPixBuf<Nrgba64Be>, x: usize, y: usize) -> usize {
    let by = lift(orig.h(), orig.pixels()[place(orig.w(), x, y)]);
    if by >= y {
        0
    } else {
        (y - by) as usize
    }
}

/// The row that the pixel at `(x, y)` is taken from.
fn source_row(orig: &RawPixBuf<Nrgba64Be>, x: usize, y: usize) -> (row: usize)
    requires
        orig.wf(),
        x < orig.w(),
        y < orig.h(),
    ensures
        row == lifted_row(orig, x, y),
        row <= y,
{
    reveal(lifted_row);
    let height = orig.height();
    let here = orig.color_get(x, y);
    let brightness: Gray = <Gray as ConvertFrom<Nrgba64Be>>::convert_from(here);
    assert((height / 255) * (brightness.y as usize) <= height) by (nonlinear_arith)
        requires
            brightness.y <= 255,
            height >= 0,
    ;
    let scaled_brightness = (height / 255) * (brightness.y as usize);
    y.saturating_sub(scaled_brightness / 8)
}

/// Lifts every pixel by its own luminance: bright pixels are taken from
/// rows further up.
pub fn bentley(orig: &RawPixBuf<Nrgba64Be>) -> (img: RawPixBuf<Nrgba64Be>)
    requires
        orig.wf(),
    ensures
        img.wf(),
        img.w() == orig.w(),
        img.h() == orig.h(),
        forall|x: usize, y: usize|
            x < orig.w() && y < orig.h() ==> img.pixels()[#[trigger] place(orig.w(), x, y)]
                == orig.pixels()[place(orig.w(), x, lifted_row(orig, x, y))],
{
    let (width, height) = orig.dimensions();
    let mut buf: Vec<Nrgba64Be> = Vec::new();
    let mut y: usize = 0;
    while y < height
        invariant
            y <= height,
            orig.wf(),
            width == orig.w(),
            height == orig.h(),
            buf@.len() == place(width, 0, y),
            forall|i: usize, j: usize|
                i < width && j < y ==> buf@[#[trigger] place(width, i, j)]
                    == orig.pixels()[place(width, i, lifted_row(orig, i, j))],
        decreases height - y,
    {
        let mut x: usize = 0;
        while x < width
            invariant
                x <= width,
                y < height,
                orig.wf(),
                width == orig.w(),
                height == orig.h(),
                buf@.len() == place(width, x, y),
                forall|i: usize, j: usize|
                    i < width && (j < y || (j == y && i < x)) ==> buf@[#[trigger] place(
                        width,
                        i,
                        j,
                    )] == orig.pixels()[place(width, i, lifted_row(orig, i, j))],
            decreases width - x,
        {
            let y_bentley = source_row(orig, x, y);
            let c = orig.color_get(x, y_bentley);
            let ghost before = buf@;
            buf.push(c);
            proof {
                assert forall|i: usize, j: usize|
                    i < width && (j < y || (j == y && i < x + 1)) implies 0 <= #[trigger] place(
                        width,
                        i,
                        j,
                    ) < before.len() + 1 && (place(width, i, j) == before.len() <==> (j == y && i
                        == x)) by {
                    lemma_row_major(i as int, j as int, x as int, y as int, width as int);
                }
            }
            x += 1;
        }
        proof {
            assert((y + 1) * width == y * width + width) by (nonlinear_arith);
        }
        y += 1;
    }
    proof {
        assert(height * width == width * height) by (nonlinear_arith);
    }
    RawPixBuf::with_pixels(width, height, buf)
}

/// A shade of gray.
pub fn shade(y: u8) -> (g: Gray)
    ensures
        g == (Gray { y }),
{
    Gray { y }
}

/// Number of steps of depth that a tree is drawn with.
pub const MAX_DEPTH: usize = 8;

/// The shade of a branch at a depth: the deeper, the brighter; of the sum
/// the lower eight bits are kept.
pub open spec fn depth_shade_of(depth: usize) -> u8 {
    (((128 * depth / (MAX_DEPTH as int)) + 75) % 256) as u8
}

/// The shade of a branch at a depth.
pub fn depth_shade(depth: usize) -> (g: Gray)
    requires
        128 * depth <= usize::MAX - 75,
    ensures
        g == (Gray { y: depth_shade_of(depth) }),
{
    let y = (128 * depth / MAX_DEPTH) + 75;
    assert((y & 0xff) == y % 256 && (y & 0xff) <= 0xff) by (bit_vector);
    shade((y & 0xff) as u8)
}

/// One of the four channels of a colour.
#[derive(Clone, Copy, Debug, PartialEq, Eq, Structural)]
pub enum Chan {
    R,
    G,
    B,
    A,
}

/// The upper byte of a channel of a colour.
pub open spec fn upper_byte(c: Nrgba64Be, which: Chan) -> u64 {
    match which {
        Chan::R => (be16(c.r) >> 8) as u64,
        Chan::G => (be16(c.g) >> 8) as u64,
        Chan::B => (be16(c.b) >> 8) as u64,
        Chan::A => (be16(c.a) >> 8) as u64,
    }
}

/// What the pixel `k` of the row `i` of the first image and the pixel `k` of
/// the column `j` of the second add to a sum: the product of the upper bytes
/// of their channels, moved up by eight bits, of which the lower 16 bits are
/// kept.
pub open spec fn product_at(
    fst: &RawPixBuf<Nrgba64Be>,
    snd: &RawPixBuf<Nrgba64Be>,
    which: Chan,
    i: usize,
    j: usize,
    k: usize,
) -> u64 {
    let product = (upper_byte(fst.pixels()[place(fst.w(), k, i)], which) * upper_byte(
        snd.pixels()[place(snd.w(), j, k)],
        which,
    )) as u64;
    (product << 8) & 0xffff
}

/// The sum of the first `n` products of a row and a column, modulo 2^64.
pub open spec fn channel_sum(
    fst: &RawPixBuf<Nrgba64Be>,
    snd: &RawPixBuf<Nrgba64Be>,
    which: Chan,
    i: usize,
    j: usize,
    n: nat,
) -> u64
    decreases n,
{
    if n == 0 {
        0
    } else {
        channel_sum(fst, snd, which, i, j, (n - 1) as nat).wrapping_add(
            product_at(fst, snd, which, i, j, (n - 1) as usize),
        )
    }
}

/// The lower 16 bits of the sum of the products of a row of the first image
/// and a column of the second.
pub open spec fn summed(
    fst: &RawPixBuf<Nrgba64Be>,
    snd: &RawPixBuf<Nrgba64Be>,
    which: Chan,
    i: usize,
    j: usize,
) -> u16 {
    (channel_sum(fst, snd, which, i, j, fst.w() as nat) & 0xffff) as u16
}

/// The upper byte of a channel.
fn upper(v: u16) -> (r: u64)
    ensures
        r == (v >> 8) as u64,
        r <= 0xff,
{
    assert((v >> 8) <= 0xff) by (bit_vector);
    (v >> 8) as u64
}

fn sum_channel(
    fst: &RawPixBuf<Nrgba64Be>,
    snd: &RawPixBuf<Nrgba64Be>,
    which: Chan,
    i: usize,
    j: usize,
) -> (r: u16)
    requires
        fst.wf(),
        snd.wf(),
        i < fst.h(),
        j < snd.w(),
        fst.w() <= snd.h(),
    ensures
        r == summed(fst, snd, which, i, j),
{
    let n = fst.width();
    let mut sum: u64 = 0;
    let mut k: usize = 0;
    while k < n
        invariant
            k <= n,
            n == fst.w(),
            fst.wf(),
            snd.wf(),
            i < fst.h(),
            j < snd.w(),
            fst.w() <= snd.h(),
            sum == channel_sum(fst, snd, which, i, j, k as nat),
        decreases n - k,
    {
        let c1 = fst.color_get(k, i);
        let c2 = snd.color_get(j, k);

        let (c1, c2) = match which {
            Chan::R => (upper(c1.r()), upper(c2.r())),
            Chan::G => (upper(c1.g()), upper(c2.g())),
            Chan::B => (upper(c1.b()), upper(c2.b())),
            Chan::A => (upper(c1.a()), upper(c2.a())),
        };
        assert(c1 * c2 <= 0xff * 0xff) by (nonlinear_arith)
            requires
                c1 <= 0xff,
                c2 <= 0xff,
        ;
        let term = ((c1 * c2) << 8) & 0xffff;
        sum = sum.wrapping_add(term);
        k += 1;
    }
    assert((sum & 0xffff) <= 0xffff) by (bit_vector);
    (sum & 0xffff) as u16
}

/// The product of two images as matrices, channel by channel: the pixel in
/// the row `i` and the column `j` is made of the sums of the products of the
/// row `i` of the first image and the column `j` of the second. The width of
/// the second image has to be the height of the first.
pub fn multiply(fst: &RawPixBuf<Nrgba64Be>, snd: &RawPixBuf<Nrgba64Be>) -> (r: Result<
    RawPixBuf<Nrgba64Be>,
    &'static str,
>)
    requires
        fst.wf(),
        snd.wf(),
        fst.w() <= snd.h(),
        snd.w() * fst.h() <= usize::MAX,
    ensures
        r is Ok <==> snd.w() == fst.h(),
        r is Ok ==> {
            let out = r->Ok_0;
            &&& out.wf()
            &&& out.w() == snd.w()
            &&& out.h() == fst.h()
            &&& forall|j: usize, i: usize|
                j < out.w() && i < out.h() ==> out.pixels()[#[trigger] place(out.w(), j, i)]
                    == product_pixel(fst, snd, i, j)
        },
{
    if snd.width() != fst.height() {
        return Err("Width of second image is not the same as first image's height");
    }
    let width = snd.width();
    let height = fst.height();
    let mut buf: Vec<Nrgba64Be> = Vec::new();
    let mut i: usize = 0;
    while i < height
        invariant
            i <= height,
            fst.wf(),
            snd.wf(),
            fst.w() <= snd.h(),
            width == snd.w(),
            height == fst.h(),
            buf@.len() == place(width, 0, i),
            forall|x: usize, y: usize|
                x < width && y < i ==> buf@[#[trigger] place(width, x, y)] == product_pixel(
                    fst,
                    snd,
                    y,
                    x,
                ),
        decreases height - i,
    {
        let mut j: usize = 0;
        while j < width
            invariant
                j <= width,
                i < height,
                fst.wf(),
                snd.wf(),
                fst.w() <= snd.h(),
                width == snd.w(),
                height == fst.h(),
                buf@.len() == place(width, j, i),
                forall|x: usize, y: usize|
                    x < width && (y < i || (y == i && x < j)) ==> buf@[#[trigger] place(
                        width,
                        x,
                        y,
                    )] == product_pixel(fst, snd, y, x),
            decreases width - j,
        {
            let r = sum_channel(fst, snd, Chan::R, i, j);
            let g = sum_channel(fst, snd, Chan::G, i, j);
            let b = sum_channel(fst, snd, Chan::B, i, j);
            let a = sum_channel(fst, snd, Chan::A, i, j);
            let ghost before = buf@;
            buf.push(Nrgba64::be(r, g, b, a));
            proof {
                assert forall|x: usize, y: usize|
                    x < width && (y < i || (y == i && x < j + 1)) implies 0 <= #[trigger] place(
                        width,
                        x,
                        y,
                    ) < before.len() + 1 && (place(width, x, y) == before.len() <==> (y == i && x
                        == j)) by {
                    lemma_row_major(x as int, y as int, j as int, i as int, width as int);
                }
            }
            j += 1;
        }
        proof {
            assert((i + 1) * width == i * width + width) by (nonlinear_arith);
        }
        i += 1;
    }
    proof {
        assert(height * width == width * height) by (nonlinear_arith);
    }
    Ok(RawPixBuf::with_pixels(width, height, buf))
}

/// The pixel of a product of two images in the row `i` and the column `j`.
pub open spec fn product_pixel(
    fst: &RawPixBuf<Nrgba64Be>,
    snd: &RawPixBuf<Nrgba64Be>,
    i: usize,
    j: usize,
) -> Nrgba64Be {
    Nrgba64 {
        r: be16(summed(fst, snd, Chan::R, i, j)),
        g: be16(summed(fst, snd, Chan::G, i, j)),
        b: be16(summed(fst, snd, Chan::B, i, j)),
        a: be16(summed(fst, snd, Chan::A, i, j)),
        _endianness: PhantomData,
    }
}

/// Whether the dot of a pixel is raised: its luminance is below the
/// threshold, or not below it where the dots are inverted.
pub open spec fn dot(
    luminance: u8,
    inverted: bool,
    im: &RawPixBuf<Nrgba64Be>,
    x: usize,
    y: usize,
) -> u32 {
    let c = im.pixels()[place(im.w(), x, y)];
    if (luma8(c.rgba().0, c.rgba().1, c.rgba().2) < luminance) != inverted {
        1
    } else {
        0
    }
}

/// The eight dots of the cell of two by four pixels whose upper left pixel
/// is `(x, y)`, as the bits of a Braille pattern.
#[verifier::opaque]
pub open spec fn cell(
    luminance: u8,
    inverted: bool,
    im: &RawPixBuf<Nrgba64Be>,
    x: usize,
    y: usize,
) -> u32 {
    let x1 = (x + 1) as usize;
    let y1 = (y + 1) as usize;
    let y2 = (y + 2) as usize;
    let y3 = (y + 3) as usize;
    dot(luminance, inverted, im, x, y) | (dot(luminance, inverted, im, x1, y) << 3) | (dot(
        luminance,
        inverted,
        im,
        x,
        y1,
    ) << 1) | (dot(luminance, inverted, im, x1, y1) << 4) | (dot(luminance, inverted, im, x, y2)
        << 2) | (dot(luminance, inverted, im, x1, y2) << 5) | (dot(luminance, inverted, im, x, y3)
        << 6) | (dot(luminance, inverted, im, x1, y3) << 7)
}

/// The three bytes of the Braille pattern with the given dots in UTF-8: the
/// pattern is the character U+2800 plus the dots.
pub open spec fn pattern_utf8(bits: u32) -> Seq<u8> {
    seq![0xe2u8, (0xa0 | (bits >> 6)) as u8, (0x80 | (bits & 0x3f)) as u8]
}

/// The first `n` patterns of the row of cells that starts at the row `y` of
/// pixels.
pub open spec fn braille_row(
    luminance: u8,
    inverted: bool,
    im: &RawPixBuf<Nrgba64Be>,
    y: usize,
    n: nat,
) -> Seq<u8>
    decreases n,
{
    if n == 0 {
        Seq::empty()
    } else {
        braille_row(luminance, inverted, im, y, (n - 1) as nat) + pattern_utf8(
            cell(luminance, inverted, im, (2 * (n - 1)) as usize, y),
        )
    }
}

/// The first `n` lines of the text of an image: each is a row of cells and
/// a line feed.
pub open spec fn braille_text(
    luminance: u8,
    inverted: bool,
    im: &RawPixBuf<Nrgba64Be>,
    n: nat,
) -> Seq<u8>
    decreases n,
{
    if n == 0 {
        Seq::empty()
    } else {
        braille_text(luminance, inverted, im, (n - 1) as nat) + braille_row(
            luminance,
            inverted,
            im,
            (4 * (n - 1)) as usize,
            (im.w() / 2) as nat,
        ) + seq![0x0au8]
    }
}

#[inline]
fn lum_at(luminance: u8, inverted: bool, im: &RawPixBuf<Nrgba64Be>, x: usize, y: usize) -> (bit: u32)
    requires
        im.wf(),
        x < im.w(),
        y < im.h(),
    ensures
        bit == dot(luminance, inverted, im, x, y),
        bit <= 1,
{
    let gray: Gray = <Gray as ConvertFrom<Nrgba64Be>>::convert_from(im.color_get(x, y));
    let thres = gray.y < luminance;
    if thres != inverted {
        1
    } else {
        0
    }
}

/// The three bytes of a Braille pattern in UTF-8.
fn pattern_bytes(bits: u32) -> (bytes: [u8; 3])
    requires
        bits <= 0xff,
    ensures
        bytes@ == pattern_utf8(bits),
{
    assert((0xa0 | (bits >> 6)) <= 0xff && (0x80 | (bits & 0x3f)) <= 0xff) by (bit_vector)
        requires
            bits <= 0xff,
    ;
    let bytes: [u8; 3] = [0xe2, (0xa0 | (bits >> 6)) as u8, (0x80 | (bits & 0x3f)) as u8];
    assert(bytes@ =~= pattern_utf8(bits));
    bytes
}

/// The dots of a cell.
fn cell_bits(luminance: u8, inverted: bool, im: &RawPixBuf<Nrgba64Be>, x: usize, y: usize) -> (bits:
    u32)
    requires
        im.wf(),
        x + 1 < im.w(),
        y + 3 < im.h(),
    ensures
        bits == cell(luminance, inverted, im, x, y),
        bits <= 0xff,
{
    reveal(cell);
    let b0 = lum_at(luminance, inverted, im, x, y);
    let b3 = lum_at(luminance, inverted, im, x + 1, y);
    let b1 = lum_at(luminance, inverted, im, x, y + 1);
    let b4 = lum_at(luminance, inverted, im, x + 1, y + 1);
    let b2 = lum_at(luminance, inverted, im, x, y + 2);
    let b5 = lum_at(luminance, inverted, im, x + 1, y + 2);
    let b6 = lum_at(luminance, inverted, im, x, y + 3);
    let b7 = lum_at(luminance, inverted, im, x + 1, y + 3);
    assert((b0 | (b3 << 3) | (b1 << 1) | (b4 << 4) | (b2 << 2) | (b5 << 5) | (b6 << 6) | (b7 << 7))
        <= 0xff) by (bit_vector)
        requires
            b0 <= 1,
            b1 <= 1,
            b2 <= 1,
            b3 <= 1,
            b4 <= 1,
            b5 <= 1,
            b6 <= 1,
            b7 <= 1,
    ;
    let mut bits = 0u32;
    bits = b0 | (b3 << 3) | (b1 << 1) | (b4 << 4) | (b2 << 2) | (b5 << 5) | (b6 << 6) | (b7 << 7);
    bits
}

/// A row of cells grows by the pattern of its next cell.
proof fn lemma_braille_row_step(
    luminance: u8,
    inverted: bool,
    im: &RawPixBuf<Nrgba64Be>,
    y: usize,
    x: usize,
)
    requires
        x % 2 == 0,
        x + 2 <= usize::MAX,
    ensures
        braille_row(luminance, inverted, im, y, ((x + 2) / 2) as nat) == braille_row(
            luminance,
            inverted,
            im,
            y,
            (x / 2) as nat,
        ) + pattern_utf8(cell(luminance, inverted, im, x, y)),
{
    let n = (x / 2 + 1) as nat;
    assert((x + 2) / 2 == x / 2 + 1);
    assert((2 * (n - 1)) as usize == x);
}

/// Appends the bytes of `bytes` to `out`.
fn append3(out: &mut Vec<u8>, bytes: &[u8; 3])
    ensures
        final(out)@ == old(out)@ + bytes@,
{
    out.push(bytes[0]);
    out.push(bytes[1]);
    out.push(bytes[2]);
    assert(out@ =~= old(out)@ + bytes@);
}

/// The image as a text of Braille patterns: each pattern stands for two by
/// four pixels, and a dot is raised where the pixel is darker than the
/// threshold. The width has to be even and the height a multiple of four.
pub fn braille(luminance: u8, inverted: bool, im: &RawPixBuf<Nrgba64Be>) -> (text: Vec<u8>)
    requires
        im.wf(),
        im.w() % 2 == 0,
        im.h() % 4 == 0,
    ensures
        text@ == braille_text(luminance, inverted, im, (im.h() / 4) as nat),
{
    let (width, height) = im.dimensions();
    let mut out: Vec<u8> = Vec::new();
    let mut y: usize = 0;
    while y < height
        invariant
            y <= height,
            y % 4 == 0,
            im.wf(),
            width == im.w(),
            height == im.h(),
            width % 2 == 0,
            height % 4 == 0,
            out@ == braille_text(luminance, inverted, im, (y / 4) as nat),
        decreases height - y,
    {
        let ghost lines = out@;
        let mut x: usize = 0;
        while x < width
            invariant
                x <= width,
                x % 2 == 0,
                y % 4 == 0,
                y < height,
                im.wf(),
                width == im.w(),
                height == im.h(),
                width % 2 == 0,
                height % 4 == 0,
                out@ == lines + braille_row(luminance, inverted, im, y, (x / 2) as nat),
            decreases width - x,
        {
            let bits = cell_bits(luminance, inverted, im, x, y);
            let bytes = pattern_bytes(bits);
            let ghost row = braille_row(luminance, inverted, im, y, (x / 2) as nat);
            proof {
                lemma_braille_row_step(luminance, inverted, im, y, x);
            }
            append3(&mut out, &bytes);
            proof {
                assert((lines + row) + bytes@ =~= lines + (row + bytes@));
            }
            x += 2;
        }
        out.push(0x0a);
        proof {
            let n = (y / 4 + 1) as nat;
            assert((4 * (n - 1)) as usize == y);
            assert(x == width);
            assert((y + 4) / 4 == y / 4 + 1);
            assert(out@ =~= braille_text(luminance, inverted, im, n));
        }
        y += 4;
    }
    out
}

/// Draws a glyph into an image: the coverage of the pixel in the row `i` and
/// the column `j` of the glyph becomes the darkness of the pixel at
/// `(x0 + j, y0 + i)`.
pub fn blit_glyph(
    buf: &mut RawPixBuf<Gray>,
    x0: usize,
    y0: usize,
    width: usize,
    height: usize,
    bitmap: &[u8],
)
    requires
        old(buf).wf(),
        bitmap@.len() == width * height,
        x0 + width <= old(buf).w(),
        y0 + height <= old(buf).h(),
    ensures
        final(buf).wf(),
        final(buf).w() == old(buf).w(),
        final(buf).h() == old(buf).h(),
        forall|x: usize, y: usize|
            x < old(buf).w() && y < old(buf).h() ==> final(buf).pixels()[#[trigger] place(
                old(buf).w(),
                x,
                y,
            )] == (if x0 <= x < x0 + width && y0 <= y < y0 + height {
                Gray { y: 0xff ^ bitmap@[place(width, (x - x0) as usize, (y - y0) as usize)] }
            } else {
                old(buf).pixels()[place(old(buf).w(), x, y)]
            }),
{
    let ghost w = buf.w();
    let ghost h = buf.h();
    let mut i: usize = 0;
    while i < height
        invariant
            i <= height,
            buf.wf(),
            buf.w() == w,
            buf.h() == h,
            w == old(buf).w(),
            h == old(buf).h(),
            bitmap@.len() == width * height,
            x0 + width <= w,
            y0 + height <= h,
            forall|x: usize, y: usize|
                x < w && y < h ==> buf.pixels()[#[trigger] place(w, x, y)] == (if x0 <= x < x0
                    + width && y0 <= y < y0 + i {
                    Gray { y: 0xff ^ bitmap@[place(width, (x - x0) as usize, (y - y0) as usize)] }
                } else {
                    old(buf).pixels()[place(w, x, y)]
                }),
        decreases height - i,
    {
        let mut j: usize = 0;
        while j < width
            invariant
                j <= width,
                i < height,
                buf.wf(),
                buf.w() == w,
                buf.h() == h,
                w == old(buf).w(),
                h == old(buf).h(),
                bitmap@.len() == width * height,
                x0 + width <= w,
                y0 + height <= h,
                forall|x: usize, y: usize|
                    x < w && y < h ==> buf.pixels()[#[trigger] place(w, x, y)] == (if x0 <= x < x0
                        + width && (y0 <= y < y0 + i || (y == y0 + i && x < x0 + j)) {
                        Gray {
                            y: 0xff ^ bitmap@[place(width, (x - x0) as usize, (y - y0) as usize)],
                        }
                    } else {
                        old(buf).pixels()[place(w, x, y)]
                    }),
            decreases width - j,
        {
            proof {
                lemma_row_major(
                    j as int,
                    i as int,
                    (width - 1) as int,
                    (height - 1) as int,
                    width as int,
                );
                assert((height - 1) * width + (width - 1) < width * height) by (nonlinear_arith)
                    requires
                        width >= 1,
                        height >= 1,
                ;
            }
            let ghost before = buf.pixels();
            let len = bitmap.len();
            let v = bitmap[i * width + j];
            buf.pixel_set(x0 + j, y0 + i, shade(0xff ^ v));
            proof {
                assert forall|x: usize, y: usize| x < w && y < h implies (place(w, x, y) == place(
                    w,
                    (x0 + j) as usize,
                    (y0 + i) as usize,
                ) <==> (x == x0 + j && y == y0 + i)) && 0 <= #[trigger] place(w, x, y)
                    < before.len() by {
                    lemma_places_differ(x as int, y as int, (x0 + j) as int, (y0 + i) as int, w as int);
                    lemma_row_major(x as int, y as int, (w - 1) as int, (h - 1) as int, w as int);
                    assert((h - 1) * w + (w - 1) < w * h) by (nonlinear_arith)
                        requires
                            w >= 1,
                            h >= 1,
                    ;
                }
            }
            j += 1;
        }
        i += 1;
    }
}

/// Two places of an image have the same position only if they are the same.
pub proof fn lemma_places_differ(x1: int, y1: int, x2: int, y2: int, width: int)
    requires
        0 <= x1 < width,
        0 <= x2 < width,
        0 <= y1,
        0 <= y2,
    ensures
        y1 * width + x1 == y2 * width + x2 <==> (x1 == x2 && y1 == y2),
{
    if y1 < y2 || (y1 == y2 && x1 <= x2) {
        lemma_row_major(x1, y1, x2, y2, width);
    } else {
        lemma_row_major(x2, y2, x1, y1, width);
    }
}

/// A colour as one number, by which the pixels of a column are compared.
pub open spec fn weight(c: Nrgba64Be) -> u64 {
    <u64 as FromSpec<Nrgba64Be>>::from_spec(c)
}

/// The pixels after the pixel at `(x, y)` has sunk in its column: as long
/// as it is not heavier than the pixel below, the two change places and the
/// next row is looked at, down to the row `last`.
pub open spec fn sunk(
    pixels: Seq<Nrgba64Be>,
    width: usize,
    x: usize,
    y: usize,
    last: usize,
) -> Seq<Nrgba64Be>
    decreases last - y,
{
    if y >= last {
        pixels
    } else {
        let upper = pixels[place(width, x, y)];
        let lower = pixels[place(width, x, (y + 1) as usize)];
        if weight(upper) > weight(lower) {
            pixels
        } else {
            sunk(
                pixels.update(place(width, x, y), lower).update(
                    place(width, x, (y + 1) as usize),
                    upper,
                ),
                width,
                x,
                (y + 1) as usize,
                last,
            )
        }
    }
}

/// The pixels of an image and the state of a generator after `n` pixels
/// have sunk: for each, two numbers are drawn; the first gives the column,
/// the second the row.
pub open spec fn melted(
    pixels: Seq<Nrgba64Be>,
    width: usize,
    height: usize,
    state: (u64, u64, u64, u64),
    n: nat,
) -> (Seq<Nrgba64Be>, (u64, u64, u64, u64))
    decreases n,
{
    if n == 0 {
        (pixels, state)
    } else {
        let before = melted(pixels, width, height, state, (n - 1) as nat);
        let r0 = drawn(before.1) as usize;
        let r1 = drawn(stepped(before.1)) as usize;
        (
            sunk(
                before.0,
                width,
                r0 % width,
                r1 % ((height - 1) as usize),
                (height - 1) as usize,
            ),
            stepped(stepped(before.1)),
        )
    }
}

/// The pixels of the column `x` of an image, from the top.
pub open spec fn column(
    pixels: Seq<Nrgba64Be>,
    width: usize,
    height: usize,
    x: usize,
) -> Seq<Nrgba64Be> {
    Seq::new(height as nat, |y: int| pixels[place(width, x, y as usize)])
}

/// Two pixels of a column that change places leave the column with the same
/// pixels.
proof fn lemma_exchange(col: Seq<Nrgba64Be>, i: int, j: int)
    requires
        0 <= i < col.len(),
        0 <= j < col.len(),
    ensures
        col.update(i, col[j]).update(j, col[i]).to_multiset() == col.to_multiset(),
{
    broadcast use vstd::seq_lib::group_to_multiset_ensures;
    broadcast use vstd::multiset::group_multiset_axioms;

    let t = col.update(i, col[j]);
    assert(col.contains(col[i]));
    assert(col.contains(col[j]));
    assert(t.to_multiset() == col.to_multiset().insert(col[j]).remove(col[i]));
    assert(t.update(j, col[i]).to_multiset() == t.to_multiset().insert(col[i]).remove(t[j]));
    assert(t.update(j, col[i]).to_multiset() =~= col.to_multiset());
}

/// A pixel that sinks leaves every column with the pixels that it had.
pub proof fn lemma_sunk_keeps_columns(
    pixels: Seq<Nrgba64Be>,
    width: usize,
    height: usize,
    x0: usize,
    y: usize,
    x: usize,
)
    requires
        pixels.len() == width * height,
        x0 < width,
        x < width,
        y < height,
    ensures
        sunk(pixels, width, x0, y, (height - 1) as usize).len() == pixels.len(),
        column(sunk(pixels, width, x0, y, (height - 1) as usize), width, height, x).to_multiset()
            == column(pixels, width, height, x).to_multiset(),
    decreases height - 1 - y,
{
    let last = (height - 1) as usize;
    if y < last {
        let y1 = (y + 1) as usize;
        let a = place(width, x0, y);
        let b = place(width, x0, y1);
        let upper = pixels[a];
        let lower = pixels[b];
        if weight(upper) <= weight(lower) {
            let next = pixels.update(a, lower).update(b, upper);
            lemma_in_image(x0 as int, y as int, width as int, height as int);
            lemma_in_image(x0 as int, y1 as int, width as int, height as int);
            lemma_places_differ(x0 as int, y as int, x0 as int, y1 as int, width as int);
            lemma_sunk_keeps_columns(next, width, height, x0, y1, x);
            let before = column(pixels, width, height, x);
            let after = column(next, width, height, x);
            if x == x0 {
                assert(after =~= before.update(y as int, before[y1 as int]).update(
                    y1 as int,
                    before[y as int],
                )) by {
                    assert forall|r: int| 0 <= r < height implies #[trigger] after[r]
                        == before.update(y as int, before[y1 as int]).update(
                        y1 as int,
                        before[y as int],
                    )[r] by {
                        lemma_in_image(x as int, r, width as int, height as int);
                        lemma_places_differ(x as int, r, x0 as int, y as int, width as int);
                        lemma_places_differ(x as int, r, x0 as int, y1 as int, width as int);
                    }
                }
                lemma_exchange(before, y as int, y1 as int);
            } else {
                assert(after =~= before) by {
                    assert forall|r: int| 0 <= r < height implies #[trigger] after[r]
                        == before[r] by {
                        lemma_in_image(x as int, r, width as int, height as int);
                        lemma_places_differ(x as int, r, x0 as int, y as int, width as int);
                        lemma_places_differ(x as int, r, x0 as int, y1 as int, width as int);
                    }
                }
            }
        }
    }
}

/// A place of an image has a position among its pixels.
proof fn lemma_in_image(x: int, y: int, width: int, height: int)
    requires
        0 <= x < width,
        0 <= y < height,
    ensures
        0 <= y * width + x < width * height,
{
    assert(0 <= y * width && y * width + x < width * height) by (nonlinear_arith)
        requires
            0 <= x < width,
            0 <= y < height,
    ;
}

/// Melting moves pixels within their columns only: every column of the
/// melted image holds the pixels that it held before, each as often.
pub proof fn lemma_melted_keeps_columns(
    pixels: Seq<Nrgba64Be>,
    width: usize,
    height: usize,
    state: (u64, u64, u64, u64),
    n: nat,
    x: usize,
)
    requires
        pixels.len() == width * height,
        height >= 2,
        x < width,
    ensures
        melted(pixels, width, height, state, n).0.len() == pixels.len(),
        column(melted(pixels, width, height, state, n).0, width, height, x).to_multiset()
            == column(pixels, width, height, x).to_multiset(),
    decreases n,
{
    if n > 0 {
        lemma_melted_keeps_columns(pixels, width, height, state, (n - 1) as nat, x);
        let before = melted(pixels, width, height, state, (n - 1) as nat);
        let r0 = drawn(before.1) as usize;
        let r1 = drawn(stepped(before.1)) as usize;
        let x0 = r0 % width;
        let y0 = r1 % ((height - 1) as usize);
        lemma_sunk_keeps_columns(before.0, width, height, x0, y0, x);
    }
}

/// A number of the generator as a machine word: its lower bits.
fn word(n: u64) -> (r: usize)
    ensures
        r == n as usize,
{
    #[verifier::truncate]
    (n as usize)
}

/// Lets the pixel at `(x, y0)` sink in its column.
fn sink(im: &mut RawPixBuf<Nrgba64Be>, x: usize, y0: usize)
    requires
        old(im).wf(),
        x < old(im).w(),
        y0 < old(im).h(),
    ensures
        final(im).wf(),
        final(im).w() == old(im).w(),
        final(im).h() == old(im).h(),
        final(im).pixels() == sunk(
            old(im).pixels(),
            old(im).w(),
            x,
            y0,
            (old(im).h() - 1) as usize,
        ),
{
    let width = im.width();
    let height_1 = im.height() - 1;
    let ghost goal = sunk(im.pixels(), width, x, y0, height_1);
    let mut y = y0;
    while y < height_1
        invariant
            y0 <= y <= height_1,
            im.wf(),
            im.w() == width,
            im.h() == height_1 + 1,
            x < width,
            sunk(im.pixels(), width, x, y, height_1) == goal,
        ensures
            im.wf(),
            im.w() == width,
            im.h() == height_1 + 1,
            im.pixels() == goal,
        decreases height_1 - y,
    {
        let fst = im.color_get(x, y);
        let snd = im.color_get(x, y + 1);

        if u64::from(fst) > u64::from(snd) {
            break ;
        }
        let ghost before = im.pixels();
        proof {
            im.lemma_offset(x, y);
        }
        im.pixel_set(x, y, snd);
        assert(im.pixels() == before.update(place(width, x, y), snd));
        assert(im.pixels().len() == before.len());
        assert(im.wf());
        let ghost between = im.pixels();
        proof {
            im.lemma_offset(x, (y + 1) as usize);
        }
        im.pixel_set(x, y + 1, fst);
        assert(im.pixels() == between.update(place(width, x, (y + 1) as usize), fst));
        assert(im.pixels().len() == between.len());
        y += 1;
    }
}

/// Lets as many pixels sink as the image has, each at a place that the
/// generator gives. The image has to have two rows at least, unless it has
/// no pixel and one row.
pub fn melt_with(im: RawPixBuf<Nrgba64Be>, rng: &mut State) -> (r: RawPixBuf<Nrgba64Be>)
    requires
        im.wf(),
        im.h() >= 2 || (im.h() == 1 && im.w() == 0),
    ensures
        r.wf(),
        r.w() == im.w(),
        r.h() == im.h(),
        (r.pixels(), final(rng)@) == melted(
            im.pixels(),
            im.w(),
            im.h(),
            old(rng)@,
            (im.w() * im.h()) as nat,
        ),
{
    let mut im = im;
    let ghost start = im.pixels();
    let ghost seed = rng@;
    let width = im.width();
    let height = im.height();
    let height_1 = height - 1;
    let count = im.as_typed().len();
    proof {
        assert(width * height > 0 ==> width >= 1 && height >= 1) by (nonlinear_arith)
            requires
                width >= 0,
                height >= 0,
        ;
        assert(width == 0 ==> width * height == 0) by (nonlinear_arith);
    }
    let mut n: usize = 0;
    while n < count
        invariant
            n <= count,
            count == width * height,
            im.wf(),
            im.w() == width,
            im.h() == height,
            height_1 == height - 1,
            count > 0 ==> height >= 2 && width >= 1,
            (im.pixels(), rng@) == melted(start, width, height, seed, n as nat),
        decreases count - n,
    {
        let r0 = word(rng.next_state());
        let r1 = word(rng.next_state());
        let x = r0 % width;
        let y0 = r1 % height_1;
        sink(&mut im, x, y0);
        n += 1;
    }
    im
}

/// As [`melt_with`], with a generator seeded by the system clock. `None`
/// says that the clock stands before 1970.
pub fn melt(im: RawPixBuf<Nrgba64Be>) -> (r: Option<RawPixBuf<Nrgba64Be>>)
    requires
        im.wf(),
        im.h() >= 2 || (im.h() == 1 && im.w() == 0),
    ensures
        r is Some ==> r->Some_0.wf() && r->Some_0.w() == im.w() && r->Some_0.h() == im.h()
            && exists|nanos: u64|
            r->Some_0.pixels() == #[trigger] melted(
                im.pixels(),
                im.w(),
                im.h(),
                seeded(nanos),
                (im.w() * im.h()) as nat,
            ).0,
{
    match State::new() {
        Some(rng) => {
            let mut rng = rng;
            let ghost first = rng@;
            let r = melt_with(im, &mut rng);
            proof {
                let nanos = choose|nanos: u64| #[trigger] seeded(nanos) == first;
                assert(r.pixels() == melted(
                    im.pixels(),
                    im.w(),
                    im.h(),
                    seeded(nanos),
                    (im.w() * im.h()) as nat,
                ).0);
            }
            Some(r)
        },
        None => None,
    }
}

} // verus!
