//! What the encoders and the decoder of the format have to do with each
//! other.

use super::stream::{
    colored, covers, distinct_in_bounds, encoded, row_major, Pixel, StreamError,
};
use super::stream::lemma_order_independence;
use super::{dimension_at, header, magic_bytes, wire_bytes, Farbfeld, FarbfeldDecodeOptions, MAGIC};
use crate::buffer::{
    lemma_memory_len, lemma_pixels_of_memory, memory_of, pixels_of, RawPixBuf, RawPixel,
};
use crate::byteorder::{be_bytes32, host_is_little, lemma_be_bytes32_roundtrip};
use crate::color::{BigEndian, Nrgba64, Nrgba64Be};
use crate::image::magic_matches;
use crate::serialize::{Decode, DecodeError, Encode, EncodeError};
use vstd::prelude::*;

verus! {

proof fn lemma_packed_memory(r: u16, g: u16, b: u16, a: u16)
    by (bit_vector)
    ensures
        ({
            let c = (r as u64) | ((g as u64) << 16) | ((b as u64) << 32) | ((a as u64) << 48);
            &&& (c & 0xff) as u8 == (r & 0xff) as u8
            &&& ((c >> 8) & 0xff) as u8 == (r >> 8) as u8
            &&& ((c >> 16) & 0xff) as u8 == (g & 0xff) as u8
            &&& ((c >> 24) & 0xff) as u8 == (g >> 8) as u8
            &&& ((c >> 32) & 0xff) as u8 == (b & 0xff) as u8
            &&& ((c >> 40) & 0xff) as u8 == (b >> 8) as u8
            &&& ((c >> 48) & 0xff) as u8 == (a & 0xff) as u8
            &&& (c >> 56) as u8 == (a >> 8) as u8
        }),
{
}

/// On a little-endian machine the bytes of a pixel in the file are the
/// bytes of the pixel in memory.
pub proof fn lemma_wire_bytes_are_memory(color: Nrgba64Be)
    requires
        host_is_little(),
    ensures
        wire_bytes(color) == color.memory(),
{
    lemma_packed_memory(color.r, color.g, color.b, color.a);
    assert(wire_bytes(color) =~= color.memory());
}

/// On a little-endian machine the bytes of the pixels in the file are the
/// bytes of the pixels in memory.
pub proof fn lemma_row_major_is_memory(colors: Seq<Nrgba64Be>)
    requires
        host_is_little(),
    ensures
        row_major(colors) == memory_of(colors),
    decreases colors.len(),
{
    if colors.len() > 0 {
        lemma_row_major_is_memory(colors.drop_last());
        lemma_wire_bytes_are_memory(colors.last());
    }
}

/// On a little-endian machine the pixels of an image, sent through a stream
/// in whatever order, give the file that the image gives as a whole.
pub proof fn lemma_stream_writes_the_file_of_the_image(
    buf: &RawPixBuf<Nrgba64Be>,
    msgs: Seq<Pixel>,
)
    requires
        host_is_little(),
        buf.wf(),
        buf.w() <= u32::MAX,
        buf.h() <= u32::MAX,
        distinct_in_bounds(buf.w() as u32, buf.h() as u32, msgs),
        colored(buf.w() as u32, buf.pixels(), msgs),
        covers(buf.w() as u32, buf.h() as u32, msgs),
    ensures
        encoded(buf.w() as u32, buf.h() as u32, msgs) == Ok::<Seq<u8>, StreamError>(
            header(buf.w() as u32, buf.h() as u32) + buf.memory(),
        ),
        <Farbfeld as Encode<RawPixBuf<Nrgba64Be>>>::encoding((), buf) == Ok::<
            Seq<u8>,
            EncodeError,
        >(header(buf.w() as u32, buf.h() as u32) + buf.memory()),
{
    lemma_order_independence(buf.w() as u32, buf.h() as u32, buf.pixels(), msgs);
    lemma_row_major_is_memory(buf.pixels());
}

/// A file that was encoded from an image of at most 2^32 - 1 columns and
/// rows decodes to the image.
pub proof fn lemma_decode_of_encoded(
    buf: &RawPixBuf<Nrgba64Be>,
    opt: FarbfeldDecodeOptions,
    r: Result<RawPixBuf<Nrgba64Be>, DecodeError>,
)
    requires
        buf.wf(),
        buf.w() <= u32::MAX,
        buf.h() <= u32::MAX,
        <Farbfeld as Decode<RawPixBuf<Nrgba64Be>>>::decodes_to(
            <Farbfeld as Encode<RawPixBuf<Nrgba64Be>>>::encoding((), buf)->Ok_0,
            opt,
            r,
        ),
    ensures
        r is Ok,
        r->Ok_0.w() == buf.w(),
        r->Ok_0.h() == buf.h(),
        r->Ok_0.pixels() == buf.pixels(),
{
    let w = buf.w() as u32;
    let h = buf.h() as u32;
    let memory = buf.memory();
    let file = header(w, h) + memory;
    assert(<Farbfeld as Encode<RawPixBuf<Nrgba64Be>>>::encoding((), buf)->Ok_0 == file);
    lemma_memory_len(buf.pixels());
    lemma_pixels_of_memory(buf.pixels());
    lemma_be_bytes32_roundtrip(w);
    lemma_be_bytes32_roundtrip(h);
    assert(header(w, h).len() == 16);
    assert forall|i: int| 0 <= i < 16 implies file[i] == #[trigger] MAGIC@[i] || MAGIC@[i]
        == 0x3f by {
        assert(file[i] == header(w, h)[i]);
        if i < 8 {
            assert(header(w, h)[i] == magic_bytes()[i]);
        }
    }
    assert(magic_matches(MAGIC@, file));
    assert(file[8] == be_bytes32(w)[0] && file[9] == be_bytes32(w)[1] && file[10] == be_bytes32(
        w,
    )[2] && file[11] == be_bytes32(w)[3]);
    assert(file[12] == be_bytes32(h)[0] && file[13] == be_bytes32(h)[1] && file[14]
        == be_bytes32(h)[2] && file[15] == be_bytes32(h)[3]);
    assert(dimension_at(file, 8) == buf.w());
    assert(dimension_at(file, 12) == buf.h());
    let need = buf.w() * buf.h() * 8;
    assert(memory.len() == need);
    assert(file.subrange(16, 16 + need) =~= memory);
}

} // verus!
