//! The colours as they lie in memory.

use super::{Cmyk, Gray, Gray16, Nrgba, Nrgba64, Rgb, Rgb48};
use crate::buffer::RawPixel;
use crate::byteorder::{
    from_ne_bytes16, lemma_ne_bytes16, ne_bytes16, to_ne_bytes16, u16_from_ne_bytes,
};
use std::marker::PhantomData;
use vstd::prelude::*;

verus! {

/// Appends the bytes of `v` in memory to `out`.
fn store16(v: u16, out: &mut Vec<u8>)
    ensures
        final(out)@ == old(out)@ + ne_bytes16(v),
{
    proof {
        lemma_ne_bytes16(v, 0, 0);
    }
    let b = to_ne_bytes16(v);
    out.push(b[0]);
    out.push(b[1]);
    assert(out@ =~= old(out)@ + ne_bytes16(v));
}

/// The value whose bytes in memory stand in `bytes` from `at` on.
fn load16(bytes: &[u8], at: usize) -> (v: u16)
    requires
        at + 2 <= bytes@.len(),
    ensures
        v == from_ne_bytes16(bytes@[at as int], bytes@[at + 1]),
{
    u16_from_ne_bytes([bytes[at], bytes[at + 1]])
}

impl RawPixel for Gray {
    open spec fn spec_size() -> usize {
        1
    }

    open spec fn memory(self) -> Seq<u8> {
        seq![self.y]
    }

    open spec fn from_memory(bytes: Seq<u8>) -> Self {
        Gray { y: bytes[0] }
    }

    open spec fn spec_zeroed() -> Self {
        Gray { y: 0 }
    }

    proof fn lemma_memory(self) {
    }

    proof fn lemma_from_memory(bytes: Seq<u8>) {
        assert(Self::from_memory(bytes).memory() =~= bytes);
    }

    proof fn lemma_zeroed() {
        assert(Self::spec_zeroed().memory() =~= Seq::new(1, |i: int| 0u8));
    }

    fn zeroed() -> (p: Self) {
        Gray { y: 0 }
    }

    fn size() -> (n: usize) {
        1
    }

    fn store(self, out: &mut Vec<u8>) {
        out.push(self.y);
        assert(out@ =~= old(out)@ + self.memory());
    }

    fn load(bytes: &[u8], at: usize) -> (p: Self) {
        Gray { y: bytes[at] }
    }
}

impl RawPixel for Rgb {
    open spec fn spec_size() -> usize {
        3
    }

    open spec fn memory(self) -> Seq<u8> {
        seq![self.r, self.g, self.b]
    }

    open spec fn from_memory(bytes: Seq<u8>) -> Self {
        Rgb { r: bytes[0], g: bytes[1], b: bytes[2] }
    }

    open spec fn spec_zeroed() -> Self {
        Rgb { r: 0, g: 0, b: 0 }
    }

    proof fn lemma_memory(self) {
    }

    proof fn lemma_from_memory(bytes: Seq<u8>) {
        assert(Self::from_memory(bytes).memory() =~= bytes);
    }

    proof fn lemma_zeroed() {
        assert(Self::spec_zeroed().memory() =~= Seq::new(3, |i: int| 0u8));
    }

    fn zeroed() -> (p: Self) {
        Rgb { r: 0, g: 0, b: 0 }
    }

    fn size() -> (n: usize) {
        3
    }

    fn store(self, out: &mut Vec<u8>) {
        out.push(self.r);
        out.push(self.g);
        out.push(self.b);
        assert(out@ =~= old(out)@ + self.memory());
    }

    fn load(bytes: &[u8], at: usize) -> (p: Self) {
        Rgb { r: bytes[at], g: bytes[at + 1], b: bytes[at + 2] }
    }
}

impl RawPixel for Nrgba {
    open spec fn spec_size() -> usize {
        4
    }

    open spec fn memory(self) -> Seq<u8> {
        seq![self.r, self.g, self.b, self.a]
    }

    open spec fn from_memory(bytes: Seq<u8>) -> Self {
        Nrgba { r: bytes[0], g: bytes[1], b: bytes[2], a: bytes[3] }
    }

    open spec fn spec_zeroed() -> Self {
        Nrgba { r: 0, g: 0, b: 0, a: 0 }
    }

    proof fn lemma_memory(self) {
    }

    proof fn lemma_from_memory(bytes: Seq<u8>) {
        assert(Self::from_memory(bytes).memory() =~= bytes);
    }

    proof fn lemma_zeroed() {
        assert(Self::spec_zeroed().memory() =~= Seq::new(4, |i: int| 0u8));
    }

    fn zeroed() -> (p: Self) {
        Nrgba { r: 0, g: 0, b: 0, a: 0 }
    }

    fn size() -> (n: usize) {
        4
    }

    fn store(self, out: &mut Vec<u8>) {
        out.push(self.r);
        out.push(self.g);
        out.push(self.b);
        out.push(self.a);
        assert(out@ =~= old(out)@ + self.memory());
    }

    fn load(bytes: &[u8], at: usize) -> (p: Self) {
        Nrgba { r: bytes[at], g: bytes[at + 1], b: bytes[at + 2], a: bytes[at + 3] }
    }
}

impl RawPixel for Cmyk {
    open spec fn spec_size() -> usize {
        4
    }

    open spec fn memory(self) -> Seq<u8> {
        seq![self.c, self.m, self.y, self.k]
    }

    open spec fn from_memory(bytes: Seq<u8>) -> Self {
        Cmyk { c: bytes[0], m: bytes[1], y: bytes[2], k: bytes[3] }
    }

    open spec fn spec_zeroed() -> Self {
        Cmyk { c: 0, m: 0, y: 0, k: 0 }
    }

    proof fn lemma_memory(self) {
    }

    proof fn lemma_from_memory(bytes: Seq<u8>) {
        assert(Self::from_memory(bytes).memory() =~= bytes);
    }

    proof fn lemma_zeroed() {
        assert(Self::spec_zeroed().memory() =~= Seq::new(4, |i: int| 0u8));
    }

    fn zeroed() -> (p: Self) {
        Cmyk { c: 0, m: 0, y: 0, k: 0 }
    }

    fn size() -> (n: usize) {
        4
    }

    fn store(self, out: &mut Vec<u8>) {
        out.push(self.c);
        out.push(self.m);
        out.push(self.y);
        out.push(self.k);
        assert(out@ =~= old(out)@ + self.memory());
    }

    fn load(bytes: &[u8], at: usize) -> (p: Self) {
        Cmyk { c: bytes[at], m: bytes[at + 1], y: bytes[at + 2], k: bytes[at + 3] }
    }
}

impl<E> RawPixel for Gray16<E> {
    open spec fn spec_size() -> usize {
        2
    }

    open spec fn memory(self) -> Seq<u8> {
        ne_bytes16(self.y)
    }

    open spec fn from_memory(bytes: Seq<u8>) -> Self {
        Gray16 { y: from_ne_bytes16(bytes[0], bytes[1]), _endianness: PhantomData }
    }

    open spec fn spec_zeroed() -> Self {
        Gray16 { y: 0, _endianness: PhantomData }
    }

    proof fn lemma_memory(self) {
        lemma_ne_bytes16(self.y, 0, 0);
    }

    proof fn lemma_from_memory(bytes: Seq<u8>) {
        lemma_ne_bytes16(0, bytes[0], bytes[1]);
        assert(Self::from_memory(bytes).memory() =~= bytes);
    }

    proof fn lemma_zeroed() {
        lemma_ne_bytes16(0, 0, 0);
        assert(Self::spec_zeroed().memory() =~= Seq::new(2, |i: int| 0u8));
    }

    fn zeroed() -> (p: Self) {
        Gray16 { y: 0, _endianness: PhantomData }
    }

    fn size() -> (n: usize) {
        2
    }

    fn store(self, out: &mut Vec<u8>) {
        store16(self.y, out);
    }

    fn load(bytes: &[u8], at: usize) -> (p: Self) {
        Gray16 { y: load16(bytes, at), _endianness: PhantomData }
    }
}

impl<E> RawPixel for Rgb48<E> {
    open spec fn spec_size() -> usize {
        6
    }

    open spec fn memory(self) -> Seq<u8> {
        ne_bytes16(self.r) + ne_bytes16(self.g) + ne_bytes16(self.b)
    }

    open spec fn from_memory(bytes: Seq<u8>) -> Self {
        Rgb48 {
            r: from_ne_bytes16(bytes[0], bytes[1]),
            g: from_ne_bytes16(bytes[2], bytes[3]),
            b: from_ne_bytes16(bytes[4], bytes[5]),
            _endianness: PhantomData,
        }
    }

    open spec fn spec_zeroed() -> Self {
        Rgb48 { r: 0, g: 0, b: 0, _endianness: PhantomData }
    }

    proof fn lemma_memory(self) {
        lemma_ne_bytes16(self.r, 0, 0);
        lemma_ne_bytes16(self.g, 0, 0);
        lemma_ne_bytes16(self.b, 0, 0);
    }

    proof fn lemma_from_memory(bytes: Seq<u8>) {
        lemma_ne_bytes16(0, bytes[0], bytes[1]);
        lemma_ne_bytes16(0, bytes[2], bytes[3]);
        lemma_ne_bytes16(0, bytes[4], bytes[5]);
        assert(Self::from_memory(bytes).memory() =~= bytes);
    }

    proof fn lemma_zeroed() {
        lemma_ne_bytes16(0, 0, 0);
        assert(Self::spec_zeroed().memory() =~= Seq::new(6, |i: int| 0u8));
    }

    fn zeroed() -> (p: Self) {
        Rgb48 { r: 0, g: 0, b: 0, _endianness: PhantomData }
    }

    fn size() -> (n: usize) {
        6
    }

    fn store(self, out: &mut Vec<u8>) {
        store16(self.r, out);
        store16(self.g, out);
        store16(self.b, out);
        assert(out@ =~= old(out)@ + self.memory());
    }

    fn load(bytes: &[u8], at: usize) -> (p: Self) {
        let _len = bytes.len();
        Rgb48 {
            r: load16(bytes, at),
            g: load16(bytes, at + 2),
            b: load16(bytes, at + 4),
            _endianness: PhantomData,
        }
    }
}

impl<E> RawPixel for Nrgba64<E> {
    open spec fn spec_size() -> usize {
        8
    }

    open spec fn memory(self) -> Seq<u8> {
        ne_bytes16(self.r) + ne_bytes16(self.g) + ne_bytes16(self.b) + ne_bytes16(self.a)
    }

    open spec fn from_memory(bytes: Seq<u8>) -> Self {
        Nrgba64 {
            r: from_ne_bytes16(bytes[0], bytes[1]),
            g: from_ne_bytes16(bytes[2], bytes[3]),
            b: from_ne_bytes16(bytes[4], bytes[5]),
            a: from_ne_bytes16(bytes[6], bytes[7]),
            _endianness: PhantomData,
        }
    }

    open spec fn spec_zeroed() -> Self {
        Nrgba64 { r: 0, g: 0, b: 0, a: 0, _endianness: PhantomData }
    }

    proof fn lemma_memory(self) {
        lemma_ne_bytes16(self.r, 0, 0);
        lemma_ne_bytes16(self.g, 0, 0);
        lemma_ne_bytes16(self.b, 0, 0);
        lemma_ne_bytes16(self.a, 0, 0);
    }

    proof fn lemma_from_memory(bytes: Seq<u8>) {
        lemma_ne_bytes16(0, bytes[0], bytes[1]);
        lemma_ne_bytes16(0, bytes[2], bytes[3]);
        lemma_ne_bytes16(0, bytes[4], bytes[5]);
        lemma_ne_bytes16(0, bytes[6], bytes[7]);
        assert(Self::from_memory(bytes).memory() =~= bytes);
    }

    proof fn lemma_zeroed() {
        lemma_ne_bytes16(0, 0, 0);
        assert(Self::spec_zeroed().memory() =~= Seq::new(8, |i: int| 0u8));
    }

    fn zeroed() -> (p: Self) {
        Nrgba64 { r: 0, g: 0, b: 0, a: 0, _endianness: PhantomData }
    }

    fn size() -> (n: usize) {
        8
    }

    fn store(self, out: &mut Vec<u8>) {
        store16(self.r, out);
        store16(self.g, out);
        store16(self.b, out);
        store16(self.a, out);
        assert(out@ =~= old(out)@ + self.memory());
    }

    fn load(bytes: &[u8], at: usize) -> (p: Self) {
        let _len = bytes.len();
        Nrgba64 {
            r: load16(bytes, at),
            g: load16(bytes, at + 2),
            b: load16(bytes, at + 4),
            a: load16(bytes, at + 6),
            _endianness: PhantomData,
        }
    }
}

} // verus!
