//! The WebP format.

use crate::image::Format;
use crate::serialize::DecodeOptions;
use vstd::prelude::*;

verus! {

/// The WebP format.
pub struct Webp;

/// The magic string of the format; the length of the file stands where the
/// question marks are.
pub const MAGIC: [u8; 15] = [
    0x52, 0x49, 0x46, 0x46, 0x3f, 0x3f, 0x3f, 0x3f, 0x57, 0x45, 0x42, 0x50, 0x56, 0x50, 0x38,
];

impl Format for Webp {
    open spec fn spec_id(&self) -> Seq<char> {
        "feim:webp"@
    }

    open spec fn spec_magic(&self) -> Seq<u8> {
        MAGIC@
    }

    fn id(&self) -> (id: &'static str) {
        "feim:webp"
    }

    fn magic(&self) -> (magic: &'static [u8]) {
        &MAGIC
    }
}

impl DecodeOptions for Webp {
    type Options = ();
}

} // verus!
