use super::pixel::{get_coords, linear, Pixel, SinkError, StreamError};
use super::reorder::ReorderBuffer;
use crate::color::Nrgba64Be;
use crate::image::farbfeld::{append8, color_to_bytes, header, header_bytes, wire_bytes};
use vstd::prelude::*;

verus! {

/// Where an encoder stands.
#[derive(Clone, Copy, Debug, PartialEq, Eq, Structural)]
pub enum Phase {
    /// Nothing has been written.
    Header,
    /// The header has been written and pixels are awaited.
    Streaming,
    /// Every pixel has been written.
    Complete,
    /// The encoding was given up.
    Failed,
}

/// What an encoder is, to its callers.
pub struct EncoderState {
    pub width: u32,
    pub height: u32,
    pub phase: Phase,
    /// Position in row-major order of the next pixel to write.
    pub window: int,
    /// The colours that wait for their turn, by position.
    pub pending: Map<int, Nrgba64Be>,
    /// Why the encoding was given up.
    pub error: Option<StreamError>,
}

/// How many positions from `from` on, without a gap and before `total`, have
/// a colour waiting.
pub open spec fn run_len(pending: Map<int, Nrgba64Be>, from: int, total: int) -> nat
    decreases total - from,
{
    if from < total && pending.contains_key(from) {
        1 + run_len(pending, from + 1, total)
    } else {
        0
    }
}

/// The bytes of the colours at the `n` positions from `from` on, in order.
pub open spec fn body(pending: Map<int, Nrgba64Be>, from: int, n: nat) -> Seq<u8>
    decreases n,
{
    if n == 0 {
        Seq::empty()
    } else {
        body(pending, from, (n - 1) as nat) + wire_bytes(pending[from + n - 1])
    }
}

impl EncoderState {
    /// Number of pixels of the image.
    pub open spec fn total(self) -> int {
        self.width as int * self.height as int
    }

    /// The encoder before anything is written.
    pub open spec fn fresh(width: u32, height: u32) -> EncoderState {
        EncoderState {
            width,
            height,
            phase: Phase::Header,
            window: 0,
            pending: Map::empty(),
            error: None,
        }
    }

    /// What holds of every encoder: the window lies in the image, the
    /// colours that wait lie after it, and the phase agrees with both.
    pub open spec fn inv(self) -> bool {
        &&& 0 <= self.window <= self.total()
        &&& forall|k: int| self.pending.contains_key(k) ==> self.window < k < self.total()
        &&& self.phase is Header ==> self.window == 0 && self.pending == Map::<
            int,
            Nrgba64Be,
        >::empty()
        &&& self.phase is Streaming ==> self.window < self.total() || self.total() == 0
        &&& self.phase is Complete ==> self.window == self.total()
        &&& self.phase is Failed <==> self.error is Some
    }

    /// Whether a pixel can be taken: it lies in the image, and its position
    /// is neither written nor waiting.
    pub open spec fn admits(self, msg: Pixel) -> Result<(), StreamError> {
        if msg.x >= self.width || msg.y >= self.height {
            Err(StreamError::OutOfBounds { x: msg.x, y: msg.y })
        } else if msg.index(self.width) < self.window || self.pending.contains_key(
            msg.index(self.width),
        ) {
            Err(StreamError::DuplicatePixel { x: msg.x, y: msg.y })
        } else {
            Ok(())
        }
    }

    /// The encoder after the header is written, and the bytes written: from
    /// then on it awaits pixels, whatever the size of the image.
    pub open spec fn started(self) -> (EncoderState, Seq<u8>) {
        if self.phase is Header {
            (EncoderState { phase: Phase::Streaming, ..self }, header(self.width, self.height))
        } else {
            (self, Seq::empty())
        }
    }

    /// The encoder after a pixel has arrived, and the bytes written.
    ///
    /// A pixel that cannot be taken ends the encoding. One that can waits,
    /// and then every colour from the window on is written, as far as there
    /// is no gap.
    pub open spec fn fed(self, msg: Pixel) -> (EncoderState, Seq<u8>) {
        if !(self.phase is Streaming) {
            (self, Seq::empty())
        } else {
            match self.admits(msg) {
                Err(e) => (
                    EncoderState { phase: Phase::Failed, error: Some(e), ..self },
                    Seq::empty(),
                ),
                Ok(()) => {
                    let waiting = self.pending.insert(msg.index(self.width), msg.color);
                    let n = run_len(waiting, self.window, self.total());
                    let window = self.window + n;
                    (
                        EncoderState {
                            phase: if window == self.total() {
                                Phase::Complete
                            } else {
                                Phase::Streaming
                            },
                            window,
                            pending: waiting.restrict(Set::new(|k: int| k >= window)),
                            ..self
                        },
                        body(waiting, self.window, n),
                    )
                },
            }
        }
    }

    /// The encoder after the queue was found closed. An encoder that awaits
    /// pixels fails as incomplete, unless the window has reached the number of
    /// pixels, which an image without pixels does at once: then the encoding
    /// is complete. Before the header is written the stream is incomplete.
    pub open spec fn closed(self) -> EncoderState {
        if self.phase is Streaming && self.window == self.total() {
            EncoderState { phase: Phase::Complete, ..self }
        } else if self.phase is Header || self.phase is Streaming {
            EncoderState {
                phase: Phase::Failed,
                error: Some(StreamError::IncompleteStream),
                ..self
            }
        } else {
            self
        }
    }

    /// The encoder after the sink refused bytes and reported `failure`.
    pub open spec fn sink_failed(self, failure: SinkError) -> EncoderState {
        if self.phase is Header || self.phase is Streaming {
            EncoderState {
                phase: Phase::Failed,
                error: Some(StreamError::IoError(failure)),
                ..self
            }
        } else {
            self
        }
    }

    /// How the encoding has ended, if it has.
    pub open spec fn outcome(self) -> Option<Result<(), StreamError>> {
        match self.phase {
            Phase::Complete => Some(Ok(())),
            Phase::Failed => Some(Err(self.error->Some_0)),
            _ => None,
        }
    }
}

/// A run ends where a position has no colour.
pub proof fn lemma_run_len(pending: Map<int, Nrgba64Be>, from: int, total: int, n: nat)
    requires
        from + n <= total,
        forall|k: int| from <= k < from + n ==> pending.contains_key(k),
        from + n == total || !pending.contains_key(from + n),
    ensures
        run_len(pending, from, total) == n,
    decreases n,
{
    if n > 0 {
        lemma_run_len(pending, from + 1, total, (n - 1) as nat);
    }
}

/// The next position to write after `window`, or the end of the image.
#[derive(Clone, Copy, Debug, PartialEq, Eq, Structural)]
pub enum RollOver {
    Next { window: u64 },
    Eof,
}

/// The position after `window`: one step to the right, or to the start of
/// the next row; the end, where there is no next row.
pub fn roll_over(width: u32, height: u32, window: u64) -> (r: RollOver)
    requires
        window < width as int * height as int,
    ensures
        window + 1 < width as int * height as int ==> r == (RollOver::Next {
            window: (window + 1) as u64,
        }),
        window + 1 == width as int * height as int ==> r == RollOver::Eof,
{
    assert(width > 0) by (nonlinear_arith)
        requires
            0 <= window < width as int * height as int,
            height >= 0,
    ;
    let w = width as u64;
    let x = (window % w) as u32;
    let y64 = window / w;
    assert(y64 < height && window == y64 * w + x) by (nonlinear_arith)
        requires
            w == width,
            w > 0,
            0 <= window < width as int * height as int,
            y64 == window / w,
            x == window % w,
    ;
    let y = y64 as u32;

    let new_x = if x == width - 1 {
        0
    } else {
        x + 1
    };
    let new_y = if new_x != 0 {
        y
    } else {
        y + 1
    };
    assert(linear(new_x, new_y, width) == window + 1) by (nonlinear_arith)
        requires
            window == y * width + x,
            x < width,
            x == width - 1 ==> new_x == 0 && new_y == y + 1,
            x != width - 1 ==> new_x == x + 1 && new_y == y,
    ;
    assert(new_y < height <==> window + 1 < width as int * height as int) by (nonlinear_arith)
        requires
            new_y as int * width as int + new_x as int == window + 1,
            new_x < width,
            new_y >= 0,
            height >= 0,
    ;

    if new_y < height {
        RollOver::Next { window: get_coords(new_x, new_y, width) }
    } else {
        RollOver::Eof
    }
}

/// Takes pixels in any order and gives out the bytes of the file in order.
pub struct StreamEncoder {
    width: u32,
    height: u32,
    phase: Phase,
    window: u64,
    buffer: ReorderBuffer,
    error: Option<StreamError>,
}

impl StreamEncoder {
    /// What the encoder is, to its callers.
    pub closed spec fn view(&self) -> EncoderState {
        EncoderState {
            width: self.width,
            height: self.height,
            phase: self.phase,
            window: self.window as int,
            pending: self.buffer@,
            error: self.error,
        }
    }

    /// Number of pixels held back.
    pub closed spec fn buffered(&self) -> nat {
        self.buffer.count()
    }

    /// The buffer is in order and agrees with the window.
    pub closed spec fn wf(&self) -> bool {
        &&& self.buffer.wf()
        &&& self.buffer.width() == self.width
        &&& self.buffer.height() == self.height
        &&& self.buffer.floor() == self.window
        &&& self@.inv()
    }

    /// Whoever holds an encoder in order holds one of which [`EncoderState::inv`] is true.
    pub proof fn lemma_inv(&self)
        requires
            self.wf(),
        ensures
            self@.inv(),
    {
    }

    /// The pixels written and the pixels held back are no more than the
    /// image has.
    pub proof fn lemma_buffered_bound(&self)
        requires
            self.wf(),
        ensures
            self@.window + self.buffered() <= self@.total(),
    {
        assert forall|k: int| self.buffer@.contains_key(k) implies self.window < k < self@.total() by {
            assert(self@.pending.contains_key(k));
        }
        if self@.window < self@.total() {
            self.buffer.lemma_count_bounded(self.window + 1, self@.total());
        } else {
            self.buffer.lemma_count_bounded(self@.total(), self@.total());
        }
    }

    /// Once every pixel is written, none is held back.
    pub proof fn lemma_complete_is_empty(&self)
        requires
            self.wf(),
            self@.phase is Complete,
        ensures
            self.buffered() == 0,
            self@.pending == Map::<int, Nrgba64Be>::empty(),
    {
        self.lemma_buffered_bound();
        assert(self@.pending =~= Map::<int, Nrgba64Be>::empty());
    }

    /// Memory is bounded by how far the senders run ahead: where no pixel
    /// held back lies more than `ahead` positions after the window, no more
    /// than `ahead` pixels are held back.
    pub proof fn lemma_bounded_memory(&self, ahead: nat)
        requires
            self.wf(),
            forall|k: int| self@.pending.contains_key(k) ==> k <= self@.window + ahead,
        ensures
            self.buffered() <= ahead,
    {
        assert forall|k: int| self.buffer@.contains_key(k) implies self.window < k <= self.window
            + ahead by {
            assert(self@.pending.contains_key(k));
        }
        self.buffer.lemma_count_bounded(self.window + 1, self.window + 1 + ahead);
    }

    /// An encoder for an image of the given size, before anything is
    /// written.
    pub fn new(width: u32, height: u32) -> (e: Self)
        ensures
            e.wf(),
            e@ == EncoderState::fresh(width, height),
            e.buffered() == 0,
    {
        assert(0 <= width as int * height as int) by (nonlinear_arith)
            requires
                width >= 0,
                height >= 0,
        ;
        StreamEncoder {
            width,
            height,
            phase: Phase::Header,
            window: 0,
            buffer: ReorderBuffer::new(width, height),
            error: None,
        }
    }

    /// Where the encoder stands.
    pub fn phase(&self) -> (p: Phase)
        ensures
            p == self@.phase,
    {
        self.phase
    }

    /// Position in row-major order of the next pixel to write.
    pub fn window(&self) -> (w: u64)
        ensures
            w == self@.window,
    {
        self.window
    }

    /// Number of pixels held back.
    pub fn pending(&self) -> (n: usize)
        ensures
            n == self.buffered(),
    {
        self.buffer.len()
    }

    /// How the encoding has ended, if it has.
    pub fn outcome(&self) -> (r: Option<Result<(), StreamError>>)
        requires
            self.wf(),
        ensures
            r == self@.outcome(),
    {
        match self.phase {
            Phase::Complete => Some(Ok(())),
            Phase::Failed => match self.error {
                Some(e) => Some(Err(e)),
                None => None,
            },
            _ => None,
        }
    }

    /// Gives out the header, once; with it the encoder starts to await
    /// pixels.
    pub fn start(&mut self) -> (out: Vec<u8>)
        requires
            old(self).wf(),
        ensures
            final(self).wf(),
            final(self)@ == old(self)@.started().0,
            out@ == old(self)@.started().1,
            final(self).buffered() == old(self).buffered(),
    {
        match self.phase {
            Phase::Header => {
                self.phase = Phase::Streaming;
                header_bytes(self.width, self.height)
            },
            _ => Vec::new(),
        }
    }

    /// Takes a pixel that has arrived and gives out the bytes that can now be
    /// written.
    ///
    /// While the encoder awaits pixels, a pixel outside the image or one
    /// whose position was taken before ends the encoding with that error.
    /// Before the start and after the end nothing happens; after a failure
    /// the error is given again.
    pub fn feed(&mut self, msg: Pixel) -> (r: Result<Vec<u8>, StreamError>)
        requires
            old(self).wf(),
        ensures
            final(self).wf(),
            final(self)@ == old(self)@.fed(msg).0,
            match r {
                Ok(out) => out@ == old(self)@.fed(msg).1 && final(self)@.error is None,
                Err(e) => final(self)@.error == Some(e) && old(self)@.fed(msg).1 == Seq::<
                    u8,
                >::empty(),
            },
            final(self).buffered() + final(self)@.window <= old(self).buffered() + old(self)@.window + 1,
            old(self)@.phase is Streaming && r is Ok ==> final(self).buffered() + final(self)@.window == old(self).buffered() + old(self)@.window + 1,
    {
        match self.phase {
            Phase::Streaming => {},
            Phase::Failed => {
                match self.error {
                    Some(e) => {
                        return Err(e);
                    },
                    None => {
                        return Ok(Vec::new());
                    },
                }
            },
            _ => {
                return Ok(Vec::new());
            },
        }
        match self.buffer.push(msg) {
            Err(e) => {
                self.phase = Phase::Failed;
                self.error = Some(e);
                return Err(e);
            },
            Ok(()) => {},
        }
        let mut out: Vec<u8> = Vec::new();
        let ghost waiting = self.buffer@;
        let ghost first = self.window as int;
        let ghost total = self@.total();
        proof {
            assert forall|k: int| waiting.contains_key(k) implies first <= k < total by {
                self.buffer.lemma_positions(k);
            }
            assert(waiting.contains_key(msg.index(self.width)));
            assert(first < total);
            assert(total <= 0xffff_ffff * 0xffff_ffff) by (nonlinear_arith)
                requires
                    total == self.width as int * self.height as int,
                    0 <= self.width <= 0xffff_ffff,
                    0 <= self.height <= 0xffff_ffff,
            ;
        }
        if msg.coords(self.width) > self.window {
            proof {
                assert(self.buffer@ =~= waiting.restrict(Set::new(|k: int| k >= first)));
                lemma_run_len(waiting, first, total, 0);
            }
            return Ok(out);
        }
        let ghost mut n: nat = 0;
        loop
            invariant_except_break
                self.phase is Streaming,
                first + n < total,
            invariant
                self.buffer.wf(),
                self.width == old(self).width,
                self.height == old(self).height,
                self.error == old(self).error,
                self.error is None,
                total == self.width as int * self.height as int,
                total <= 0xffff_ffff * 0xffff_ffff,
                self.buffer.width() == self.width,
                self.buffer.height() == self.height,
                self.buffer.floor() == self.window,
                self.window == first + n,
                first + n <= total,
                forall|k: int| first <= k < first + n ==> waiting.contains_key(k),
                forall|k: int| waiting.contains_key(k) ==> first <= k < total,
                self.buffer@ == waiting.restrict(Set::new(|k: int| k >= first + n)),
                out@ == body(waiting, first, n),
                self.buffer.count() + n == old(self).buffer.count() + 1,
            ensures
                first + n == total || !waiting.contains_key(first + n),
                first + n == total ==> self.phase is Complete,
                first + n < total ==> self.phase is Streaming,
            decreases total - self.window,
        {
            let ghost held = self.buffer@;
            match self.buffer.pop_ready(self.window) {
                None => {
                    proof {
                        if waiting.contains_key(first + n) {
                            assert(held.contains_key(first + n));
                        }
                    }
                    break ;
                },
                Some(p) => {
                    proof {
                        let k = p.index(self.width);
                        assert(held.contains_key(k));
                        assert(k == first + n);
                        assert(self.buffer@ =~= waiting.restrict(
                            Set::new(|j: int| j >= first + n + 1),
                        ));
                    }
                    let bytes = color_to_bytes(p.color);
                    append8(&mut out, &bytes);
                    let ghost here = self.window;
                    match roll_over(self.width, self.height, self.window) {
                        RollOver::Next { window } => {
                            self.window = window;
                            proof {
                                n = n + 1;
                            }
                        },
                        RollOver::Eof => {
                            self.window = self.window + 1;
                            self.phase = Phase::Complete;
                            proof {
                                n = n + 1;
                            }
                            break ;
                        },
                    }
                },
            }
        }
        proof {
            lemma_run_len(waiting, first, total, n);
        }
        Ok(out)
    }

    /// Takes note that the queue is closed: where pixels were still awaited,
    /// the encoding fails as incomplete; where none was left to await, it is
    /// complete.
    pub fn close(&mut self) -> (r: Result<(), StreamError>)
        requires
            old(self).wf(),
        ensures
            final(self).wf(),
            final(self)@ == old(self)@.closed(),
            Some(r) == final(self)@.outcome(),
            final(self).buffered() == old(self).buffered(),
    {
        match self.phase {
            Phase::Complete => Ok(()),
            Phase::Failed => match self.error {
                Some(e) => Err(e),
                None => Ok(()),
            },
            Phase::Streaming => {
                let total = get_coords(0, self.height, self.width);
                proof {
                    assert(self.height as int * self.width as int == self.width as int
                        * self.height as int) by (nonlinear_arith);
                    self.lemma_buffered_bound();
                }
                if self.window == total {
                    self.phase = Phase::Complete;
                    Ok(())
                } else {
                    self.phase = Phase::Failed;
                    self.error = Some(StreamError::IncompleteStream);
                    Err(StreamError::IncompleteStream)
                }
            },
            Phase::Header => {
                self.phase = Phase::Failed;
                self.error = Some(StreamError::IncompleteStream);
                Err(StreamError::IncompleteStream)
            },
        }
    }

    /// Takes note that the sink refused bytes and of what it reported:
    /// unless the encoding has ended, it fails with that.
    pub fn sink_failed(&mut self, failure: SinkError) -> (r: Result<(), StreamError>)
        requires
            old(self).wf(),
        ensures
            final(self).wf(),
            final(self)@ == old(self)@.sink_failed(failure),
            Some(r) == final(self)@.outcome(),
            final(self).buffered() == old(self).buffered(),
    {
        match self.phase {
            Phase::Complete => Ok(()),
            Phase::Failed => match self.error {
                Some(e) => Err(e),
                None => Ok(()),
            },
            _ => {
                self.phase = Phase::Failed;
                self.error = Some(StreamError::IoError(failure));
                Err(StreamError::IoError(failure))
            },
        }
    }
}

} // verus!
