//! The farbfeld format: a magic string, the width and the height as 32 bit
//! big-endian numbers, then the pixels in row-major order, each as four 16
//! bit big-endian channels.

mod laws;
pub mod stream;

pub use laws::{
    lemma_decode_of_encoded, lemma_row_major_is_memory,
    lemma_stream_writes_the_file_of_the_image, lemma_wire_bytes_are_memory,
};

use crate::buffer::{pixels_of, RawPixBuf};
use crate::byteorder::{
    be_bytes32, fit32, from_be_bytes32, host_is_little, ne_bytes64, to_be_bytes32, to_ne_bytes64,
    u32_from_be_bytes,
};
use crate::color::convert::ConvertFrom;
use crate::color::{pack64, BigEndian, Nrgba64, Nrgba64Be, Nrgba64Ne};
use crate::image::{magic_matches, Dimensions, Format, Image};
use crate::serialize::{Decode, DecodeError, DecodeOptions, Encode, EncodeError, EncodeOptions};
use crate::specialized::No;
use vstd::prelude::*;

verus! {

/// The farbfeld format.
pub struct Farbfeld;

/// The magic string of the format: `farbfeld`, then eight bytes that are not
/// looked at, where the width and the height stand.
pub const MAGIC: [u8; 16] = [
    0x66, 0x61, 0x72, 0x62, 0x66, 0x65, 0x6c, 0x64,
    0x3f, 0x3f, 0x3f, 0x3f, 0x3f, 0x3f, 0x3f, 0x3f,
];

impl Format for Farbfeld {
    open spec fn spec_id(&self) -> Seq<char> {
        "feim:ff"@
    }

    open spec fn spec_magic(&self) -> Seq<u8> {
        MAGIC@
    }

    fn id(&self) -> (id: &'static str) {
        "feim:ff"
    }

    fn magic(&self) -> (magic: &'static [u8]) {
        &MAGIC
    }
}

/// The eight bytes that every farbfeld file starts with: `farbfeld`.
pub open spec fn magic_bytes() -> Seq<u8> {
    seq![0x66u8, 0x61u8, 0x72u8, 0x62u8, 0x66u8, 0x65u8, 0x6cu8, 0x64u8]
}

/// The sixteen bytes before the pixels: the magic string, the width and the
/// height.
pub open spec fn header(width: u32, height: u32) -> Seq<u8> {
    magic_bytes() + be_bytes32(width) + be_bytes32(height)
}

/// The eight bytes that stand for a pixel in the file: the memory of the
/// four channels, packed from the lowest bits of a 64 bit value, in the byte
/// order of the machine.
pub open spec fn wire_bytes(color: Nrgba64Be) -> Seq<u8> {
    ne_bytes64(pack64(color.r, color.g, color.b, color.a))
}

proof fn lemma_packed_bytes(r: u16, g: u16, b: u16, a: u16)
    by (bit_vector)
    ensures
        ({
            let c = (r as u64) | ((g as u64) << 16) | ((b as u64) << 32) | ((a as u64) << 48);
            &&& (c & 0xff) as u8 == ((((r << 8) | (r >> 8)) as u16) >> 8) as u8
            &&& ((c >> 8) & 0xff) as u8 == (((r << 8) | (r >> 8)) & 0xff) as u8
            &&& ((c >> 16) & 0xff) as u8 == ((((g << 8) | (g >> 8)) as u16) >> 8) as u8
            &&& ((c >> 24) & 0xff) as u8 == (((g << 8) | (g >> 8)) & 0xff) as u8
            &&& ((c >> 32) & 0xff) as u8 == ((((b << 8) | (b >> 8)) as u16) >> 8) as u8
            &&& ((c >> 40) & 0xff) as u8 == (((b << 8) | (b >> 8)) & 0xff) as u8
            &&& ((c >> 48) & 0xff) as u8 == ((((a << 8) | (a >> 8)) as u16) >> 8) as u8
            &&& (c >> 56) as u8 == (((a << 8) | (a >> 8)) & 0xff) as u8
        }),
{
}

/// The two bytes of a channel, the upper one first.
pub open spec fn channel_bytes(v: u16) -> Seq<u8> {
    seq![(v >> 8) as u8, (v & 0xff) as u8]
}

/// On a little-endian machine the bytes of a pixel in the file are its red,
/// green, blue and alpha, each with the upper byte first, as the format asks.
pub proof fn lemma_wire_bytes_on_little_endian(color: Nrgba64Be)
    requires
        host_is_little(),
    ensures
        wire_bytes(color) == channel_bytes(color.channels().0) + channel_bytes(
            color.channels().1,
        ) + channel_bytes(color.channels().2) + channel_bytes(color.channels().3),
{
    lemma_packed_bytes(color.r, color.g, color.b, color.a);
    assert(wire_bytes(color) =~= channel_bytes(color.channels().0) + channel_bytes(
        color.channels().1,
    ) + channel_bytes(color.channels().2) + channel_bytes(color.channels().3));
}

/// Appends the bytes of `bytes` to `out`.
pub(crate) fn append4(out: &mut Vec<u8>, bytes: &[u8; 4])
    ensures
        final(out)@ == old(out)@ + bytes@,
{
    out.push(bytes[0]);
    out.push(bytes[1]);
    out.push(bytes[2]);
    out.push(bytes[3]);
    assert(out@ =~= old(out)@ + bytes@);
}

/// Appends the bytes of `bytes` to `out`.
pub(crate) fn append8(out: &mut Vec<u8>, bytes: &[u8; 8])
    ensures
        final(out)@ == old(out)@ + bytes@,
{
    out.push(bytes[0]);
    out.push(bytes[1]);
    out.push(bytes[2]);
    out.push(bytes[3]);
    out.push(bytes[4]);
    out.push(bytes[5]);
    out.push(bytes[6]);
    out.push(bytes[7]);
    assert(out@ =~= old(out)@ + bytes@);
}

/// The header of an image of the given size.
pub fn header_bytes(width: u32, height: u32) -> (h: Vec<u8>)
    ensures
        h@ == header(width, height),
        h@.len() == 16,
{
    let mut h: Vec<u8> = Vec::new();
    h.push(0x66);
    h.push(0x61);
    h.push(0x72);
    h.push(0x62);
    h.push(0x66);
    h.push(0x65);
    h.push(0x6c);
    h.push(0x64);
    assert(h@ =~= magic_bytes());
    let w = to_be_bytes32(width);
    let t = to_be_bytes32(height);
    append4(&mut h, &w);
    append4(&mut h, &t);
    h
}

/// The bytes that stand for a pixel in the file.
pub fn color_to_bytes(color: Nrgba64Be) -> (b: [u8; 8])
    ensures
        b@ == wire_bytes(color),
{
    let c: Nrgba64Ne = color.cast();
    let c: u64 = u64::from(c);
    to_ne_bytes64(c)
}

/// Options of the farbfeld decoder.
pub struct FarbfeldDecodeOptions {
    /// Whether the magic string is checked.
    pub check_header: bool,
}

impl Default for FarbfeldDecodeOptions {
    fn default() -> (o: Self)
        ensures
            o.check_header,
    {
        Self { check_header: true }
    }
}

impl EncodeOptions for Farbfeld {
    type Options = ();
}

impl DecodeOptions for Farbfeld {
    type Options = FarbfeldDecodeOptions;
}

/// Whether the header can hold a width and a height: each fits in 32 bits.
pub open spec fn size_fits(width: usize, height: usize) -> bool {
    width <= u32::MAX && height <= u32::MAX
}

/// The header of an image of the given size, where the header can hold the
/// size.
fn header_of(width: usize, height: usize) -> (h: Option<Vec<u8>>)
    ensures
        h is Some <==> size_fits(width, height),
        h is Some ==> h->Some_0@ == header(width as u32, height as u32),
{
    match (fit32(width), fit32(height)) {
        (Some(w), Some(h)) => Some(header_bytes(w, h)),
        _ => None,
    }
}

impl Encode<RawPixBuf<Nrgba64<BigEndian>>> for Farbfeld {
    open spec fn encodable(buf: &RawPixBuf<Nrgba64<BigEndian>>) -> bool {
        true
    }

    /// The header, then the pixels as they lie in memory. An image whose
    /// width or height does not fit in 32 bits cannot be held.
    open spec fn encoding(opts: (), buf: &RawPixBuf<Nrgba64<BigEndian>>) -> Result<
        Seq<u8>,
        EncodeError,
    > {
        if size_fits(buf.w(), buf.h()) {
            Ok(header(buf.w() as u32, buf.h() as u32) + buf.memory())
        } else {
            Err(EncodeError::Unsupported)
        }
    }

    fn encode(_opts: (), buf: &RawPixBuf<Nrgba64<BigEndian>>) -> (r: Result<Vec<u8>, EncodeError>) {
        let mut out = match header_of(buf.width(), buf.height()) {
            Some(h) => h,
            None => {
                return Err(EncodeError::Unsupported);
            },
        };
        let mut pixels = buf.to_bytes();
        out.append(&mut pixels);
        Ok(out)
    }
}

/// The bytes of the pixel at the position `k` in row-major order of an
/// image of the given width, converted to the colour of the format.
pub open spec fn record_at<I: Image>(img: &I, width: usize, k: int) -> Seq<u8> {
    wire_bytes(
        <Nrgba64<BigEndian> as ConvertFrom<I::Pixel, No>>::converted(
            img.pixel_at((k % width as int) as usize, (k / width as int) as usize),
        ),
    )
}

/// The bytes of the first `n` pixels of an image in row-major order.
pub open spec fn records<I: Image>(img: &I, width: usize, n: nat) -> Seq<u8>
    decreases n,
{
    if n == 0 {
        Seq::empty()
    } else {
        records(img, width, (n - 1) as nat) + record_at(img, width, n - 1)
    }
}

impl<I: Image + Dimensions> Encode<I, No> for Farbfeld {
    /// The image has a pixel at every place within its width and height.
    open spec fn encodable(buf: &I) -> bool {
        forall|x: usize, y: usize|
            x < buf.spec_width() && y < buf.spec_height() ==> #[trigger] buf.has_pixel(x, y)
    }

    /// The header, then the pixels in row-major order, each converted to
    /// the colour of the format. An image whose width or height does not fit
    /// in 32 bits cannot be held.
    open spec fn encoding(opts: (), buf: &I) -> Result<Seq<u8>, EncodeError> {
        if size_fits(buf.spec_width(), buf.spec_height()) {
            Ok(
                header(buf.spec_width() as u32, buf.spec_height() as u32) + records(
                    buf,
                    buf.spec_width(),
                    (buf.spec_width() * buf.spec_height()) as nat,
                ),
            )
        } else {
            Err(EncodeError::Unsupported)
        }
    }

    fn encode(_opts: (), buf: &I) -> (r: Result<Vec<u8>, EncodeError>) {
        let (width, height) = buf.dimensions();
        let mut out = match header_of(width, height) {
            Some(h) => h,
            None => {
                return Err(EncodeError::Unsupported);
            },
        };
        let ghost head = out@;
        let mut y: usize = 0;
        while y < height
            invariant
                y <= height,
                width == buf.spec_width(),
                height == buf.spec_height(),
                Self::encodable(buf),
                out@ == head + records(buf, width, (y * width) as nat),
            decreases height - y,
        {
            let mut x: usize = 0;
            while x < width
                invariant
                    x <= width,
                    y < height,
                    width == buf.spec_width(),
                    height == buf.spec_height(),
                    Self::encodable(buf),
                    out@ == head + records(buf, width, (y * width + x) as nat),
                decreases width - x,
            {
                let c = buf.color_get(x, y);
                let c: Nrgba64<BigEndian> = <Nrgba64<BigEndian> as ConvertFrom<
                    I::Pixel,
                    No,
                >>::convert_from(c);
                let bytes = color_to_bytes(c);
                proof {
                    let k = y * width + x;
                    assert(0 <= y * width) by (nonlinear_arith)
                        requires
                            y >= 0,
                            width >= 0,
                    ;
                    vstd::arithmetic::div_mod::lemma_fundamental_div_mod_converse(
                        k,
                        width as int,
                        y as int,
                        x as int,
                    );
                    assert(records(buf, width, (k + 1) as nat) == records(buf, width, k as nat)
                        + record_at(buf, width, k));
                    assert((head + records(buf, width, k as nat)) + bytes@ =~= head + (records(
                        buf,
                        width,
                        k as nat,
                    ) + bytes@));
                }
                append8(&mut out, &bytes);
                x += 1;
            }
            proof {
                assert((y + 1) * width == y * width + width) by (nonlinear_arith);
            }
            y += 1;
        }
        proof {
            assert(height * width == width * height) by (nonlinear_arith);
        }
        Ok(out)
    }
}

/// The width or the height that the four bytes from `at` on stand for.
pub open spec fn dimension_at(bytes: Seq<u8>, at: int) -> usize {
    from_be_bytes32(bytes[at], bytes[at + 1], bytes[at + 2], bytes[at + 3]) as usize
}

impl Decode<RawPixBuf<Nrgba64<BigEndian>>> for Farbfeld {
    /// Fewer than sixteen bytes are too few; then the magic string is
    /// looked at, if the options ask for it; then the bytes after the header
    /// have to be as many as the pixels take, and the first of them are the
    /// memory of the pixels.
    open spec fn decodes_to(
        bytes: Seq<u8>,
        opt: FarbfeldDecodeOptions,
        r: Result<RawPixBuf<Nrgba64<BigEndian>>, DecodeError>,
    ) -> bool {
        if bytes.len() < 16 {
            r == Err::<RawPixBuf<Nrgba64<BigEndian>>, DecodeError>(DecodeError::UnexpectedEof)
        } else if opt.check_header && !magic_matches(MAGIC@, bytes) {
            r == Err::<RawPixBuf<Nrgba64<BigEndian>>, DecodeError>(DecodeError::InvalidMagic)
        } else {
            let width = dimension_at(bytes, 8);
            let height = dimension_at(bytes, 12);
            let need = width * height * 8;
            if bytes.len() - 16 < need {
                r == Err::<RawPixBuf<Nrgba64<BigEndian>>, DecodeError>(DecodeError::UnexpectedEof)
            } else {
                &&& r is Ok
                &&& r->Ok_0.wf()
                &&& r->Ok_0.w() == width
                &&& r->Ok_0.h() == height
                &&& r->Ok_0.pixels() == pixels_of::<Nrgba64<BigEndian>>(
                    bytes.subrange(16, 16 + need),
                    (width * height) as nat,
                )
            }
        }
    }

    fn decode(bytes: &[u8], opt: FarbfeldDecodeOptions) -> (r: Result<
        RawPixBuf<Nrgba64<BigEndian>>,
        DecodeError,
    >) {
        let len = bytes.len();
        if len < 16 {
            return Err(DecodeError::UnexpectedEof);
        }
        if opt.check_header && !Farbfeld.is_valid_magic(bytes) {
            return Err(DecodeError::InvalidMagic);
        }
        let width = u32_from_be_bytes(bytes[8], bytes[9], bytes[10], bytes[11]) as usize;
        let height = u32_from_be_bytes(bytes[12], bytes[13], bytes[14], bytes[15]) as usize;
        let count = match width.checked_mul(height) {
            Some(n) => n,
            None => {
                assert(width * height * 8 > usize::MAX) by (nonlinear_arith)
                    requires
                        width * height > usize::MAX,
                ;
                return Err(DecodeError::UnexpectedEof);
            },
        };
        let need = match count.checked_mul(8) {
            Some(n) => n,
            None => {
                return Err(DecodeError::UnexpectedEof);
            },
        };
        if len - 16 < need {
            return Err(DecodeError::UnexpectedEof);
        }
        let body = vstd::slice::slice_subrange(bytes, 16, 16 + need);
        match RawPixBuf::from_slice(width, height, body) {
            Some(buf) => Ok(buf),
            None => Err(DecodeError::UnexpectedEof),
        }
    }
}

} // verus!
