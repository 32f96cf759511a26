//! Encoding of pixels that arrive in any order.
//!
//! Workers hand pixels to a bounded queue; the encoder takes them out, holds
//! back those that are ahead of the next pixel that the file needs, and emits
//! the bytes of the image in row-major order.

mod encoder;
mod laws;
mod pixel;
mod queue;
mod reorder;

pub use encoder::{
    body, lemma_run_len, roll_over, run_len, EncoderState, Phase, RollOver, StreamEncoder,
};
pub use laws::{
    begun, color_at, colored, covers, distinct_in_bounds, lemma_begun, lemma_body_is_row_major,
    lemma_duplicate_rejected, lemma_early_closure, lemma_image_without_pixels, lemma_fed, lemma_fed_inv, lemma_index_bound,
    lemma_order_independence, lemma_out_of_bounds_rejected, lemma_pending_bounded,
    lemma_pigeonhole,
    lemma_prefix_step, lemma_prefix_written, lemma_run_inv, lemma_run_props, lemma_same_file,
    lemma_streaming_trace, placed, row_major, seen, written_in_order,
};
pub use pixel::{
    clamped, get_coords, lemma_clamped_keeps_bounds, lemma_linear_injective, linear, Pixel,
    SinkError, SinkErrorKind, StreamError,
};
pub use queue::MAX_BUFFER_CAP;
pub use reorder::ReorderBuffer;

use crate::color::Nrgba64Be;
use crate::image::Dimensions;
use vstd::prelude::*;

verus! {

/// What a stream is made with.
#[derive(Debug, Copy, Clone)]
pub struct Params {
    /// Number of pixels that the queue holds before a sender has to wait.
    pub buffer_cap: usize,
    pub width: usize,
    pub height: usize,
}

/// The receiving end of the queue, with the size of the image.
pub struct FarbfeldPixelStream {
    width: u32,
    height: u32,
    pixels: kanal::Receiver<Pixel>,
}

/// The sending end of the queue. Every worker has one of its own.
pub struct FarbfeldPixelStreamPusher {
    tx: kanal::Sender<Pixel>,
}

impl Clone for FarbfeldPixelStreamPusher {
    fn clone(&self) -> (other: Self) {
        FarbfeldPixelStreamPusher { tx: queue::another(&self.tx) }
    }
}

impl FarbfeldPixelStreamPusher {
    /// Hands the colour of the pixel at `(x, y)` to the encoder, waiting
    /// while the queue is full. The answer is `false` where the encoder has
    /// gone.
    pub fn send(&self, x: usize, y: usize, color: Nrgba64Be) -> (sent: bool) {
        queue::send(&self.tx, Pixel::bind(x, y, color))
    }
}

/// The pixels that were received, each fed to an encoder in turn: the
/// encoder after the last, and all the bytes that it gave out.
pub open spec fn run(state: EncoderState, msgs: Seq<Pixel>) -> (EncoderState, Seq<u8>)
    decreases msgs.len(),
{
    if msgs.len() == 0 {
        (state, Seq::empty())
    } else {
        let before = run(state, msgs.drop_last());
        let last = before.0.fed(msgs.last());
        (last.0, before.1 + last.1)
    }
}

/// The file that comes of an image of the given size when the pixels `msgs`
/// are received and the queue is then found closed, or the error.
pub open spec fn encoded(width: u32, height: u32, msgs: Seq<Pixel>) -> Result<
    Seq<u8>,
    StreamError,
> {
    let begun = EncoderState::fresh(width, height).started();
    let fed = run(begun.0, msgs);
    let end = fed.0.closed();
    match end.phase {
        Phase::Complete => Ok(begun.1 + fed.1),
        _ => Err(end.error->Some_0),
    }
}

/// A result with the file as a sequence of bytes.
pub open spec fn file_of(r: Result<Vec<u8>, StreamError>) -> Result<Seq<u8>, StreamError> {
    match r {
        Ok(bytes) => Ok(bytes@),
        Err(e) => Err(e),
    }
}

impl FarbfeldPixelStream {
    /// A queue of the given capacity for an image of the given size, as its
    /// sending end and its receiving end. The width and the height are at
    /// most `u32::MAX`, as the header of the file holds them in 32 bits.
    pub fn new(params: Params) -> (ends: (FarbfeldPixelStreamPusher, Self))
        requires
            params.buffer_cap <= MAX_BUFFER_CAP,
            params.width <= u32::MAX,
            params.height <= u32::MAX,
        ensures
            ends.1.image_width() == params.width,
            ends.1.image_height() == params.height,
    {
        let (tx, rx) = queue::bounded(params.buffer_cap);
        let rx = Self { width: params.width as u32, height: params.height as u32, pixels: rx };
        let tx = FarbfeldPixelStreamPusher { tx };
        (tx, rx)
    }

    /// As [`Self::new`], for every capacity and size: `None` where the
    /// capacity is above [`MAX_BUFFER_CAP`], or the width or the height
    /// above `u32::MAX`.
    pub fn try_new(params: Params) -> (ends: Option<(FarbfeldPixelStreamPusher, Self)>)
        ensures
            ends is Some <==> params.buffer_cap <= MAX_BUFFER_CAP && params.width <= u32::MAX
                && params.height <= u32::MAX,
            ends is Some ==> ends->Some_0.1.image_width() == params.width
                && ends->Some_0.1.image_height() == params.height,
    {
        if params.buffer_cap <= MAX_BUFFER_CAP && params.width <= 0xffff_ffff && params.height
            <= 0xffff_ffff {
            Some(Self::new(params))
        } else {
            None
        }
    }

    /// Width of the image.
    pub closed spec fn image_width(&self) -> u32 {
        self.width
    }

    /// Height of the image.
    pub closed spec fn image_height(&self) -> u32 {
        self.height
    }

    /// Takes the next pixel out of the queue, waiting while the queue is
    /// empty and a sender is left. `None` says that every sender has gone
    /// and the queue is empty. Which pixel comes is up to the senders.
    pub fn recv(&self) -> (pixel: Option<Pixel>) {
        queue::recv(&self.pixels)
    }

    /// An encoder for the image of this stream, before anything is written.
    pub fn encoder(&self) -> (e: StreamEncoder)
        ensures
            e.wf(),
            e@ == EncoderState::fresh(self.image_width(), self.image_height()),
            e.buffered() == 0,
    {
        StreamEncoder::new(self.width, self.height)
    }

    /// Takes pixels out of the queue until the image is complete, and
    /// returns the file.
    ///
    /// Which pixels arrive is up to the senders. Whatever arrives, the
    /// result is what [`encoded`] says of the pixels that were received.
    pub fn encode(&self) -> (r: Result<Vec<u8>, StreamError>)
        ensures
            exists|msgs: Seq<Pixel>| #[trigger]
                encoded(self.image_width(), self.image_height(), msgs) == file_of(r),
    {
        let mut encoder = StreamEncoder::new(self.width, self.height);
        let mut out = encoder.start();
        let ghost begun = EncoderState::fresh(self.width, self.height).started();
        let ghost mut msgs: Seq<Pixel> = Seq::empty();
        let ghost total = begun.0.total();
        loop
            invariant
                encoder.wf(),
                begun == EncoderState::fresh(self.width, self.height).started(),
                total == begun.0.total(),
                encoder@ == run(begun.0, msgs).0,
                out@ == begun.1 + run(begun.0, msgs).1,
                encoder@.phase is Streaming || encoder@.phase is Complete,
                encoder@.total() == total,
            decreases total - encoder@.window - encoder.buffered(),
        {
            proof {
                encoder.lemma_buffered_bound();
                encoder.lemma_inv();
            }
            match encoder.phase() {
                Phase::Streaming => {},
                _ => {
                    let r = Ok(out);
                    assert(encoded(self.image_width(), self.image_height(), msgs) == file_of(r));
                    return r;
                },
            }
            match queue::recv(&self.pixels) {
                None => {
                    let closed = encoder.close();
                    proof {
                        encoder.lemma_inv();
                    }
                    match closed {
                        Ok(()) => {
                            let r = Ok(out);
                            assert(encoded(self.image_width(), self.image_height(), msgs) == file_of(
                                r,
                            ));
                            return r;
                        },
                        Err(e) => {
                            let r = Err(e);
                            assert(encoded(self.image_width(), self.image_height(), msgs) == file_of(
                                r,
                            ));
                            return r;
                        },
                    }
                },
                Some(pixel) => {
                    let ghost longer = msgs.push(pixel);
                    let ghost before = encoder@;
                    let ghost held = encoder.buffered();
                    proof {
                        assert(longer.drop_last() =~= msgs);
                        assert(longer.last() == pixel);
                        assert(run(begun.0, longer).0 == run(begun.0, msgs).0.fed(pixel).0);
                        assert(run(begun.0, longer).1 == run(begun.0, msgs).1 + run(
                            begun.0,
                            msgs,
                        ).0.fed(pixel).1);
                    }
                    let fed = encoder.feed(pixel);
                    proof {
                        encoder.lemma_inv();
                        encoder.lemma_buffered_bound();
                        assert(fed is Ok ==> encoder.buffered() + encoder@.window == held
                            + before.window + 1);
                        assert(encoder@.total() == total);
                    }
                    match fed {
                        Ok(mut bytes) => {
                            out.append(&mut bytes);
                            proof {
                                msgs = longer;
                                assert(out@ =~= begun.1 + run(begun.0, longer).1);
                            }
                        },
                        Err(e) => {
                            let r = Err(e);
                            assert(encoded(self.image_width(), self.image_height(), longer)
                                == file_of(r));
                            return r;
                        },
                    }
                },
            }
        }
    }
}

impl Dimensions for FarbfeldPixelStream {
    open spec fn spec_width(&self) -> usize {
        self.image_width() as usize
    }

    open spec fn spec_height(&self) -> usize {
        self.image_height() as usize
    }

    fn width(&self) -> (w: usize) {
        self.width as usize
    }

    fn height(&self) -> (h: usize) {
        self.height as usize
    }
}

} // verus!
