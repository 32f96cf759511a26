use crate::byteorder::fit32;
use crate::color::Nrgba64Be;
use vstd::prelude::*;

verus! {

/// The kind of failure that a sink reports.
#[derive(Clone, Copy, Debug, PartialEq, Eq, Structural)]
pub enum SinkErrorKind {
    NotFound,
    PermissionDenied,
    ConnectionRefused,
    ConnectionReset,
    ConnectionAborted,
    NotConnected,
    BrokenPipe,
    AlreadyExists,
    WouldBlock,
    InvalidInput,
    InvalidData,
    TimedOut,
    WriteZero,
    Interrupted,
    Unsupported,
    UnexpectedEof,
    OutOfMemory,
    /// A failure of a kind not named here.
    Other,
}

/// What a sink reports of its failure: the kind, and the number of the
/// error of the operating system, where there is one.
#[derive(Clone, Copy, Debug, PartialEq, Eq, Structural)]
pub struct SinkError {
    pub kind: SinkErrorKind,
    pub has_os_code: bool,
    pub os_code: i32,
}

/// Why a stream could not be encoded.
#[derive(Clone, Copy, Debug, PartialEq, Eq, Structural)]
pub enum StreamError {
    /// A pixel lies outside the image.
    OutOfBounds { x: u32, y: u32 },
    /// A pixel was sent twice.
    DuplicatePixel { x: u32, y: u32 },
    /// The queue was closed before every pixel had been sent.
    IncompleteStream,
    /// The sink could not take the bytes.
    IoError(SinkError),
}

/// Position of the pixel `(x, y)` in the row-major order of an image of the
/// given width.
pub open spec fn linear(x: u32, y: u32, width: u32) -> int {
    y as int * width as int + x as int
}

/// Two pixels of one image at the same position in row-major order are the
/// same pixel.
pub proof fn lemma_linear_injective(x1: u32, y1: u32, x2: u32, y2: u32, width: u32)
    requires
        x1 < width,
        x2 < width,
        linear(x1, y1, width) == linear(x2, y2, width),
    ensures
        x1 == x2,
        y1 == y2,
{
    let w = width as int;
    if y1 < y2 {
        assert(y2 as int * w >= (y1 as int + 1) * w) by (nonlinear_arith)
            requires
                y1 < y2,
                w > 0,
        ;
        assert((y1 as int + 1) * w == y1 as int * w + w) by (nonlinear_arith);
    } else if y2 < y1 {
        assert(y1 as int * w >= (y2 as int + 1) * w) by (nonlinear_arith)
            requires
                y2 < y1,
                w > 0,
        ;
        assert((y2 as int + 1) * w == y2 as int * w + w) by (nonlinear_arith);
    }
}

/// Position of the pixel `(x, y)` in the row-major order of an image of the
/// given width.
#[inline]
pub fn get_coords(x: u32, y: u32, width: u32) -> (c: u64)
    ensures
        c == linear(x, y, width),
{
    assert(y as int * width as int <= 0xffff_ffff * 0xffff_ffff) by (nonlinear_arith)
        requires
            0 <= y <= 0xffff_ffff,
            0 <= width <= 0xffff_ffff,
    ;
    (y as u64) * (width as u64) + (x as u64)
}

/// A coordinate as a number of 32 bits: itself, or `u32::MAX` where it is
/// above that.
pub open spec fn clamped(v: usize) -> u32 {
    if v > u32::MAX {
        u32::MAX
    } else {
        v as u32
    }
}

/// A coordinate as a number of 32 bits.
fn clamp(v: usize) -> (r: u32)
    ensures
        r == clamped(v),
{
    match fit32(v) {
        Some(r) => r,
        None => u32::MAX,
    }
}

/// A coordinate lies outside an image before it is made a number of 32 bits
/// exactly if it does so after.
pub proof fn lemma_clamped_keeps_bounds(v: usize, bound: u32)
    ensures
        clamped(v) < bound <==> v < bound,
        clamped(v) < bound ==> clamped(v) == v,
{
}

/// A colour with the place in the image that it belongs to.
#[derive(Clone, Copy)]
pub struct Pixel {
    pub x: u32,
    pub y: u32,
    pub color: Nrgba64Be,
}

impl Pixel {
    /// The pixel at `(x, y)`. A coordinate above `u32::MAX` becomes
    /// `u32::MAX`, which lies outside every image, as the coordinate does.
    pub fn bind(x: usize, y: usize, color: Nrgba64Be) -> (p: Self)
        ensures
            p.x == clamped(x),
            p.y == clamped(y),
            p.color == color,
    {
        Self { x: clamp(x), y: clamp(y), color }
    }

    /// Position of the pixel in the row-major order of an image of the
    /// given width.
    pub open spec fn index(self, width: u32) -> int {
        linear(self.x, self.y, width)
    }

    /// Position of the pixel in the row-major order of an image of the
    /// given width.
    #[inline]
    pub fn coords(&self, width: u32) -> (c: u64)
        ensures
            c == self.index(width),
    {
        get_coords(self.x, self.y, width)
    }
}

} // verus!
