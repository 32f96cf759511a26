//! Image encoding building blocks: colour types tagged with the byte order of
//! their channels, raw pixel buffers, file formats recognised by their magic
//! string, and a streaming farbfeld encoder that takes pixels in any order and
//! emits them in row-major order.

pub mod buffer;
pub mod byteorder;
pub mod color;
pub mod effects;
pub mod image;
pub mod prng;
pub mod serialize;
pub mod specialized;
