//! Byte order of 16, 32 and 64 bit values.
//!
//! The byte order of the executing machine is `vstd::endian::endianness()`.
//! Everything that depends on it is stated over [`host_is_little`].

use vstd::endian::{endianness, Endian};
use vstd::prelude::*;

verus! {

/// Whether the executing machine stores the least significant byte first.
pub open spec fn host_is_little() -> bool {
    endianness() is Little
}

/// The two bytes of `x` in reverse order.
pub open spec fn swapped16(x: u16) -> u16 {
    (x << 8) | (x >> 8)
}

/// The eight bytes of `x` in reverse order.
pub open spec fn swapped64(x: u64) -> u64 {
    (x << 56) | ((x & 0xff00) << 40) | ((x & 0xff_0000) << 24) | ((x & 0xff00_0000) << 8) | ((x >> 8)
        & 0xff00_0000) | ((x >> 24) & 0xff_0000) | ((x >> 40) & 0xff00) | (x >> 56)
}

/// Value whose bytes in memory, read as big-endian, are `x`; also the reading
/// as big-endian of the memory of `x`, the conversion being its own inverse.
pub open spec fn be16(x: u16) -> u16 {
    if host_is_little() {
        swapped16(x)
    } else {
        x
    }
}

/// As [`be16`], for little-endian.
pub open spec fn le16(x: u16) -> u16 {
    if host_is_little() {
        x
    } else {
        swapped16(x)
    }
}

/// As [`be16`], for eight bytes.
pub open spec fn be64(x: u64) -> u64 {
    if host_is_little() {
        swapped64(x)
    } else {
        x
    }
}

/// As [`le16`], for eight bytes.
pub open spec fn le64(x: u64) -> u64 {
    if host_is_little() {
        x
    } else {
        swapped64(x)
    }
}

/// The four bytes of `x`, most significant first.
pub open spec fn be_bytes32(x: u32) -> Seq<u8> {
    seq![(x >> 24) as u8, ((x >> 16) & 0xff) as u8, ((x >> 8) & 0xff) as u8, (x & 0xff) as u8]
}

/// The value whose four bytes, most significant first, are `b0 b1 b2 b3`.
pub open spec fn from_be_bytes32(b0: u8, b1: u8, b2: u8, b3: u8) -> u32 {
    ((b0 as u32) << 24) | ((b1 as u32) << 16) | ((b2 as u32) << 8) | (b3 as u32)
}

/// The eight bytes of `x`, least significant first.
pub open spec fn le_bytes64(x: u64) -> Seq<u8> {
    seq![
        (x & 0xff) as u8,
        ((x >> 8) & 0xff) as u8,
        ((x >> 16) & 0xff) as u8,
        ((x >> 24) & 0xff) as u8,
        ((x >> 32) & 0xff) as u8,
        ((x >> 40) & 0xff) as u8,
        ((x >> 48) & 0xff) as u8,
        (x >> 56) as u8,
    ]
}

/// The eight bytes of `x`, most significant first.
pub open spec fn be_bytes64(x: u64) -> Seq<u8> {
    le_bytes64(x).reverse()
}

/// The eight bytes of `x` as the executing machine holds them in memory.
pub open spec fn ne_bytes64(x: u64) -> Seq<u8> {
    if host_is_little() {
        le_bytes64(x)
    } else {
        be_bytes64(x)
    }
}

/// The two bytes of `x` as the executing machine holds them in memory.
pub open spec fn ne_bytes16(x: u16) -> Seq<u8> {
    if host_is_little() {
        seq![(x & 0xff) as u8, (x >> 8) as u8]
    } else {
        seq![(x >> 8) as u8, (x & 0xff) as u8]
    }
}

/// The value that the executing machine holds in memory as the bytes `b0`
/// and `b1`.
pub open spec fn from_ne_bytes16(b0: u8, b1: u8) -> u16 {
    if host_is_little() {
        (b0 as u16) | ((b1 as u16) << 8)
    } else {
        ((b0 as u16) << 8) | (b1 as u16)
    }
}

proof fn lemma_split16(x: u16)
    by (bit_vector)
    ensures
        (((x & 0xff) as u8) as u16) | ((((x >> 8) as u8) as u16) << 8) == x,
        ((((x >> 8) as u8) as u16) << 8) | (((x & 0xff) as u8) as u16) == x,
{
}

proof fn lemma_join16(b0: u8, b1: u8)
    by (bit_vector)
    ensures
        ((((b0 as u16) | ((b1 as u16) << 8)) & 0xff) as u8) == b0,
        ((((b0 as u16) | ((b1 as u16) << 8)) >> 8) as u8) == b1,
        (((((b0 as u16) << 8) | (b1 as u16)) >> 8) as u8) == b0,
        (((((b0 as u16) << 8) | (b1 as u16)) & 0xff) as u8) == b1,
{
}

/// A value is found again from its bytes in memory, and the bytes from the
/// value.
pub proof fn lemma_ne_bytes16(x: u16, b0: u8, b1: u8)
    ensures
        ne_bytes16(x).len() == 2,
        from_ne_bytes16(ne_bytes16(x)[0], ne_bytes16(x)[1]) == x,
        ne_bytes16(from_ne_bytes16(b0, b1)) == seq![b0, b1],
        ne_bytes16(0) == seq![0u8, 0u8],
{
    lemma_split16(x);
    lemma_join16(b0, b1);
    lemma_split16(0);
    assert(ne_bytes16(from_ne_bytes16(b0, b1)) =~= seq![b0, b1]);
    assert(0u16 & 0xff == 0 && 0u16 >> 8 == 0) by (bit_vector);
    assert(ne_bytes16(0) =~= seq![0u8, 0u8]);
}

/// Reversing two bytes twice gives the value back.
pub proof fn lemma_swapped16_involutive(x: u16)
    ensures
        swapped16(swapped16(x)) == x,
{
    assert(((((x << 8) | (x >> 8)) << 8) | (((x << 8) | (x >> 8)) >> 8)) == x) by (bit_vector);
}

/// Converting to a byte order and back gives the value back.
pub proof fn lemma_order16_roundtrip(x: u16)
    ensures
        be16(be16(x)) == x,
        le16(le16(x)) == x,
{
    lemma_swapped16_involutive(x);
}

/// Zero is the same in every byte order.
pub proof fn lemma_zero_order()
    ensures
        be16(0) == 0,
        le16(0) == 0,
{
    assert(swapped16(0) == 0) by (bit_vector);
}

/// The two bytes of `x` in reverse order.
pub fn swap_bytes16(x: u16) -> (r: u16)
    ensures
        r == swapped16(x),
{
    (x << 8) | (x >> 8)
}

/// `u16::to_be`: on a little-endian machine the bytes are swapped, on a
/// big-endian machine the value is returned as it is.
#[verifier::external_body]
pub(crate) fn to_be16(x: u16) -> (r: u16)
    ensures
        r == be16(x),
{
    x.to_be()
}

/// `u16::to_le`: on a big-endian machine the bytes are swapped, on a
/// little-endian machine the value is returned as it is.
#[verifier::external_body]
pub(crate) fn to_le16(x: u16) -> (r: u16)
    ensures
        r == le16(x),
{
    x.to_le()
}

/// `u16::from_be`: on a little-endian machine the bytes are swapped, on a
/// big-endian machine the value is returned as it is.
#[verifier::external_body]
pub(crate) fn from_be16(x: u16) -> (r: u16)
    ensures
        r == be16(x),
{
    u16::from_be(x)
}

/// `u16::from_le`: on a big-endian machine the bytes are swapped, on a
/// little-endian machine the value is returned as it is.
#[verifier::external_body]
pub(crate) fn from_le16(x: u16) -> (r: u16)
    ensures
        r == le16(x),
{
    u16::from_le(x)
}

/// `u64::from_be`: on a little-endian machine the eight bytes are reversed, on
/// a big-endian machine the value is returned as it is.
#[verifier::external_body]
pub(crate) fn from_be64(x: u64) -> (r: u64)
    ensures
        r == be64(x),
{
    u64::from_be(x)
}

/// `u64::from_le`: on a big-endian machine the eight bytes are reversed, on a
/// little-endian machine the value is returned as it is.
#[verifier::external_body]
pub(crate) fn from_le64(x: u64) -> (r: u64)
    ensures
        r == le64(x),
{
    u64::from_le(x)
}

/// `u16::to_ne_bytes`: the memory representation of the value, which is its
/// lower byte first on a little-endian machine and its upper byte first on a
/// big-endian one.
#[verifier::external_body]
pub(crate) fn to_ne_bytes16(x: u16) -> (r: [u8; 2])
    ensures
        r@ == ne_bytes16(x),
{
    x.to_ne_bytes()
}

/// `u16::from_ne_bytes`: the value whose memory representation the two bytes
/// are.
#[verifier::external_body]
pub(crate) fn u16_from_ne_bytes(bytes: [u8; 2]) -> (r: u16)
    ensures
        r == from_ne_bytes16(bytes@[0], bytes@[1]),
{
    u16::from_ne_bytes(bytes)
}

/// `u64::to_ne_bytes`: the memory representation of the value, which is its
/// bytes from the least significant on a little-endian machine and from the
/// most significant on a big-endian one.
#[verifier::external_body]
pub(crate) fn to_ne_bytes64(x: u64) -> (r: [u8; 8])
    ensures
        r@ == ne_bytes64(x),
{
    x.to_ne_bytes()
}

/// `x` as a number of 32 bits, where it is one.
pub fn fit32(x: usize) -> (r: Option<u32>)
    ensures
        r is Some <==> x <= u32::MAX,
        r is Some ==> r->Some_0 == x,
{
    if x <= 0xffff_ffff {
        Some(x as u32)
    } else {
        None
    }
}

proof fn lemma_bytes_of_32(x: u32)
    by (bit_vector)
    ensures
        (x >> 24) <= 0xff,
        ((x >> 16) & 0xff) <= 0xff,
        ((x >> 8) & 0xff) <= 0xff,
        (x & 0xff) <= 0xff,
{
}

/// The four bytes of `x`, most significant first.
pub fn to_be_bytes32(x: u32) -> (r: [u8; 4])
    ensures
        r@ == be_bytes32(x),
{
    let r: [u8; 4] = [
        (x >> 24) as u8,
        ((x >> 16) & 0xff) as u8,
        ((x >> 8) & 0xff) as u8,
        (x & 0xff) as u8,
    ];
    proof {
        lemma_bytes_of_32(x);
        assert(r@ =~= be_bytes32(x));
    }
    r
}

/// The value whose four bytes, most significant first, are given.
pub fn u32_from_be_bytes(b0: u8, b1: u8, b2: u8, b3: u8) -> (r: u32)
    ensures
        r == from_be_bytes32(b0, b1, b2, b3),
{
    ((b0 as u32) << 24) | ((b1 as u32) << 16) | ((b2 as u32) << 8) | (b3 as u32)
}

/// Reading back the four bytes of a value gives the value.
pub proof fn lemma_be_bytes32_roundtrip(x: u32)
    ensures
        from_be_bytes32(
            be_bytes32(x)[0],
            be_bytes32(x)[1],
            be_bytes32(x)[2],
            be_bytes32(x)[3],
        ) == x,
{
    assert(((((x >> 24) as u8) as u32) << 24) | (((((x >> 16) & 0xff) as u8) as u32) << 16) | (((((x
        >> 8) & 0xff) as u8) as u32) << 8) | (((x & 0xff) as u8) as u32) == x) by (bit_vector);
}

} // verus!
