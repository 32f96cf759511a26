//! Turning images into the bytes of a file and back.

use crate::image::{magic_matches, Format};
use crate::specialized::{Aye, No};
use vstd::prelude::*;

verus! {

/// Why bytes could not be read as an image.
#[derive(Clone, Copy, Debug, PartialEq, Eq, Structural)]
pub enum DecodeError {
    /// The bytes end before the image does.
    UnexpectedEof,
    /// The bytes do not start with the magic string of the format.
    InvalidMagic,
    /// The bytes start with the magic string of no format.
    NoMatchingMagic,
    /// The image has a colour type that is not supported.
    UnsupportedColorType,
    /// The bytes are not a file of the format.
    Malformed,
}

/// Why an image could not be written.
#[derive(Clone, Copy, Debug, PartialEq, Eq, Structural)]
pub enum EncodeError {
    /// The image has a size or a colour type that the format cannot hold.
    Unsupported,
    /// The encoder of the format gave up.
    Failed,
}

/// A result with the bytes of a file as a sequence.
pub open spec fn file_view<E>(r: Result<Vec<u8>, E>) -> Result<Seq<u8>, E> {
    match r {
        Ok(bytes) => Ok(bytes@),
        Err(e) => Err(e),
    }
}

/// The options of a format for encoding.
pub trait EncodeOptions {
    type Options;
}

/// The options of a format for decoding.
pub trait DecodeOptions {
    type Options;
}

/// A format that can encode images held in `B`.
pub trait Encode<B, Specialized = Aye>: EncodeOptions {
    /// Whether the image can be handed to the encoder.
    spec fn encodable(buf: &B) -> bool;

    /// The file that the image is encoded to, or the error.
    spec fn encoding(opts: Self::Options, buf: &B) -> Result<Seq<u8>, EncodeError>;

    fn encode(opts: Self::Options, buf: &B) -> (r: Result<Vec<u8>, EncodeError>)
        requires
            Self::encodable(buf),
        ensures
            file_view(r) == Self::encoding(opts, buf),
    ;
}

/// The encoder of a format that is made for the images held in `B`.
pub trait EncodeSpecialized<B>: EncodeOptions {
    /// Whether the image can be handed to the encoder.
    spec fn encodable_specialized(buf: &B) -> bool;

    /// The file that the image is encoded to, or the error.
    spec fn encoding_specialized(opts: Self::Options, buf: &B) -> Result<Seq<u8>, EncodeError>;

    fn encode_specialized(opts: Self::Options, buf: &B) -> (r: Result<Vec<u8>, EncodeError>)
        requires
            Self::encodable_specialized(buf),
        ensures
            file_view(r) == Self::encoding_specialized(opts, buf),
    ;
}

impl<B, F: Encode<B, Aye>> EncodeSpecialized<B> for F {
    open spec fn encodable_specialized(buf: &B) -> bool {
        Self::encodable(buf)
    }

    open spec fn encoding_specialized(opts: Self::Options, buf: &B) -> Result<Seq<u8>, EncodeError> {
        Self::encoding(opts, buf)
    }

    #[inline]
    fn encode_specialized(opts: Self::Options, buf: &B) -> (r: Result<Vec<u8>, EncodeError>) {
        Self::encode(opts, buf)
    }
}

/// The encoder of a format that takes every image.
pub trait EncodeGeneric<B>: EncodeOptions {
    /// Whether the image can be handed to the encoder.
    spec fn encodable_generic(buf: &B) -> bool;

    /// The file that the image is encoded to, or the error.
    spec fn encoding_generic(opts: Self::Options, buf: &B) -> Result<Seq<u8>, EncodeError>;

    fn encode_generic(opts: Self::Options, buf: &B) -> (r: Result<Vec<u8>, EncodeError>)
        requires
            Self::encodable_generic(buf),
        ensures
            file_view(r) == Self::encoding_generic(opts, buf),
    ;
}

impl<B, F: Encode<B, No>> EncodeGeneric<B> for F {
    open spec fn encodable_generic(buf: &B) -> bool {
        Self::encodable(buf)
    }

    open spec fn encoding_generic(opts: Self::Options, buf: &B) -> Result<Seq<u8>, EncodeError> {
        Self::encoding(opts, buf)
    }

    #[inline]
    fn encode_generic(opts: Self::Options, buf: &B) -> (r: Result<Vec<u8>, EncodeError>) {
        Self::encode(opts, buf)
    }
}

/// A format that can decode images into `B`.
pub trait Decode<B, Specialized = Aye>: DecodeOptions {
    /// Whether `r` is what the bytes decode to.
    spec fn decodes_to(bytes: Seq<u8>, opt: Self::Options, r: Result<B, DecodeError>) -> bool;

    fn decode(bytes: &[u8], opt: Self::Options) -> (r: Result<B, DecodeError>)
        ensures
            Self::decodes_to(bytes@, opt, r),
    ;
}

/// The decoder of a format that is made for the images held in `B`.
pub trait DecodeSpecialized<B>: DecodeOptions {
    /// Whether `r` is what the bytes decode to.
    spec fn decodes_to_specialized(
        bytes: Seq<u8>,
        opt: Self::Options,
        r: Result<B, DecodeError>,
    ) -> bool;

    fn decode_specialized(bytes: &[u8], opt: Self::Options) -> (r: Result<B, DecodeError>)
        ensures
            Self::decodes_to_specialized(bytes@, opt, r),
    ;
}

impl<B, F: Decode<B, Aye>> DecodeSpecialized<B> for F {
    open spec fn decodes_to_specialized(
        bytes: Seq<u8>,
        opt: Self::Options,
        r: Result<B, DecodeError>,
    ) -> bool {
        Self::decodes_to(bytes, opt, r)
    }

    #[inline]
    fn decode_specialized(bytes: &[u8], opt: Self::Options) -> (r: Result<B, DecodeError>) {
        Self::decode(bytes, opt)
    }
}

/// The decoder of a format that gives every kind of image.
pub trait DecodeGeneric<B>: DecodeOptions {
    /// Whether `r` is what the bytes decode to.
    spec fn decodes_to_generic(bytes: Seq<u8>, opt: Self::Options, r: Result<B, DecodeError>) -> bool;

    fn decode_generic(bytes: &[u8], opt: Self::Options) -> (r: Result<B, DecodeError>)
        ensures
            Self::decodes_to_generic(bytes@, opt, r),
    ;
}

impl<B, F: Decode<B, No>> DecodeGeneric<B> for F {
    open spec fn decodes_to_generic(
        bytes: Seq<u8>,
        opt: Self::Options,
        r: Result<B, DecodeError>,
    ) -> bool {
        Self::decodes_to(bytes, opt, r)
    }

    #[inline]
    fn decode_generic(bytes: &[u8], opt: Self::Options) -> (r: Result<B, DecodeError>) {
        Self::decode(bytes, opt)
    }
}

/// Options of a decoder that can leave out the check of the magic string.
pub struct GenericDecodeOptions {
    pub check_header: bool,
}

impl Default for GenericDecodeOptions {
    fn default() -> (o: Self)
        ensures
            o.check_header,
    {
        Self { check_header: true }
    }
}

/// The first of the formats whose magic string the bytes start with.
pub open spec fn first_match<F: Format>(buf: Seq<u8>, formats: Seq<F>, i: int) -> bool {
    &&& 0 <= i < formats.len()
    &&& magic_matches(formats[i].spec_magic(), buf)
    &&& forall|j: int| 0 <= j < i ==> !magic_matches(#[trigger] formats[j].spec_magic(), buf)
}

/// Finds the first of `formats` whose magic string the bytes `buf` start
/// with, and returns its place among them.
pub fn try_format<F: Format>(buf: &[u8], formats: &[F]) -> (r: Result<usize, DecodeError>)
    ensures
        match r {
            Ok(i) => first_match(buf@, formats@, i as int),
            Err(e) => e == DecodeError::NoMatchingMagic && forall|j: int|
                0 <= j < formats@.len() ==> !magic_matches(
                    #[trigger] formats@[j].spec_magic(),
                    buf@,
                ),
        },
{
    let mut i: usize = 0;
    while i < formats.len()
        invariant
            i <= formats@.len(),
            forall|j: int|
                0 <= j < i ==> !magic_matches(#[trigger] formats@[j].spec_magic(), buf@),
        decreases formats@.len() - i,
    {
        if formats[i].is_valid_magic(buf) {
            return Ok(i);
        }
        i += 1;
    }
    Err(DecodeError::NoMatchingMagic)
}

} // verus!
