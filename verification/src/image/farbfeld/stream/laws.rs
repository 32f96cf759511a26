//! What holds of every encoding, whatever the order in which the pixels
//! arrive.

use super::encoder::{body, run_len, EncoderState, Phase};
use super::pixel::{lemma_linear_injective, Pixel, StreamError};
use super::{encoded, run};
use crate::color::Nrgba64Be;
use crate::image::farbfeld::{header, wire_bytes};
use vstd::prelude::*;

verus! {

/// The bytes of the colours of an image, given in row-major order.
pub open spec fn row_major(colors: Seq<Nrgba64Be>) -> Seq<u8>
    decreases colors.len(),
{
    if colors.len() == 0 {
        Seq::empty()
    } else {
        row_major(colors.drop_last()) + wire_bytes(colors.last())
    }
}

/// Whether the pixel at a position has been taken: it is written, or it
/// waits.
pub open spec fn seen(s: EncoderState, k: int) -> bool {
    0 <= k < s.window || s.pending.contains_key(k)
}

/// Every pixel lies in the image and no two lie at the same place.
pub open spec fn distinct_in_bounds(width: u32, height: u32, msgs: Seq<Pixel>) -> bool {
    &&& forall|i: int| 0 <= i < msgs.len() ==> (#[trigger] msgs[i]).x < width && msgs[i].y < height
    &&& forall|i: int, j: int|
        0 <= i < j < msgs.len() ==> (#[trigger] msgs[i]).x != (#[trigger] msgs[j]).x || msgs[i].y
            != msgs[j].y
}

/// Every pixel has the colour that the image has at its place.
pub open spec fn colored(width: u32, colors: Seq<Nrgba64Be>, msgs: Seq<Pixel>) -> bool {
    forall|i: int|
        0 <= i < msgs.len() ==> (#[trigger] msgs[i]).color == colors[msgs[i].index(width)]
}

/// One of the pixels lies at the position `k`.
pub open spec fn placed(width: u32, msgs: Seq<Pixel>, k: int) -> bool {
    exists|i: int| 0 <= i < msgs.len() && (#[trigger] msgs[i]).index(width) == k
}

/// Every place of the image has a pixel.
pub open spec fn covers(width: u32, height: u32, msgs: Seq<Pixel>) -> bool {
    forall|k: int| 0 <= k < width as int * height as int ==> #[trigger] placed(width, msgs, k)
}

/// A pixel of the image has a position below the number of its pixels.
pub proof fn lemma_index_bound(p: Pixel, width: u32, height: u32)
    requires
        p.x < width,
        p.y < height,
    ensures
        0 <= p.index(width) < width as int * height as int,
{
    assert(p.y as int * width as int + p.x < width as int * height as int) by (nonlinear_arith)
        requires
            p.x < width,
            p.y < height,
    ;
    assert(0 <= p.y as int * width as int) by (nonlinear_arith)
        requires
            p.y >= 0,
            width >= 0,
    ;
}

/// A run covers its positions and ends at the end of the image or at a gap.
pub proof fn lemma_run_props(pending: Map<int, Nrgba64Be>, from: int, total: int)
    requires
        from <= total,
    ensures
        from + run_len(pending, from, total) <= total,
        forall|k: int|
            from <= k < from + run_len(pending, from, total) ==> pending.contains_key(k),
        from + run_len(pending, from, total) == total || !pending.contains_key(
            from + run_len(pending, from, total),
        ),
    decreases total - from,
{
    if from < total && pending.contains_key(from) {
        lemma_run_props(pending, from + 1, total);
    }
}

/// The bytes of a run are the next bytes of the image in row-major order.
pub proof fn lemma_body_is_row_major(
    colors: Seq<Nrgba64Be>,
    pending: Map<int, Nrgba64Be>,
    from: int,
    n: nat,
)
    requires
        0 <= from,
        from + n <= colors.len(),
        forall|k: int|
            from <= k < from + n ==> ((#[trigger] pending.contains_key(k)) && pending[k]
                == colors[k]),
    ensures
        row_major(colors.take(from + n)) == row_major(colors.take(from)) + body(pending, from, n),
    decreases n,
{
    if n == 0 {
        assert(row_major(colors.take(from)) + Seq::<u8>::empty() =~= row_major(colors.take(from)));
    } else {
        lemma_body_is_row_major(colors, pending, from, (n - 1) as nat);
        assert(pending.contains_key(from + n - 1));
        let longer = colors.take(from + n);
        assert(longer.drop_last() =~= colors.take(from + n - 1));
        assert(longer.last() == colors[from + n - 1]);
        assert(row_major(longer) == row_major(colors.take(from + n - 1)) + wire_bytes(
            colors[from + n - 1],
        ));
        assert((row_major(colors.take(from)) + body(pending, from, (n - 1) as nat)) + wire_bytes(
            pending[from + n - 1],
        ) =~= row_major(colors.take(from)) + (body(pending, from, (n - 1) as nat) + wire_bytes(
            pending[from + n - 1],
        )));
    }
}

/// A step keeps the encoder in order; the window never goes back, the size
/// of the image stays, and an encoding that has ended stays as it is.
pub proof fn lemma_fed_inv(s: EncoderState, msg: Pixel)
    requires
        s.inv(),
    ensures
        s.fed(msg).0.inv(),
        s.fed(msg).0.width == s.width,
        s.fed(msg).0.height == s.height,
        s.window <= s.fed(msg).0.window,
        !(s.phase is Streaming) ==> s.fed(msg) == (s, Seq::<u8>::empty()),
{
    if s.phase is Streaming {
        match s.admits(msg) {
            Err(e) => {},
            Ok(()) => {
                lemma_fed(s, msg);
            },
        }
    }
}

/// What a pixel that is taken does: it is seen from then on, as is every
/// pixel seen before; the colours that wait are those that waited and the
/// new one; the bytes written are those of the run that starts at the
/// window.
pub proof fn lemma_fed(s: EncoderState, msg: Pixel)
    requires
        s.inv(),
        s.phase is Streaming,
        s.admits(msg) is Ok,
    ensures
        ({
            let t = s.fed(msg).0;
            let k = msg.index(s.width);
            let waiting = s.pending.insert(k, msg.color);
            &&& t.inv()
            &&& t.width == s.width
            &&& t.height == s.height
            &&& t.error is None
            &&& t.phase is Streaming || t.phase is Complete
            &&& s.window <= t.window
            &&& forall|j: int| seen(t, j) <==> seen(s, j) || j == k
            &&& forall|j: int| #[trigger] t.pending.contains_key(j) ==> t.pending[j] == waiting[j]
            &&& forall|j: int| s.window <= j < t.window ==> waiting.contains_key(j)
            &&& s.fed(msg).1 == body(waiting, s.window, (t.window - s.window) as nat)
        }),
{
    let t = s.fed(msg).0;
    let k = msg.index(s.width);
    let waiting = s.pending.insert(k, msg.color);
    let total = s.total();
    lemma_index_bound(msg, s.width, s.height);
    lemma_run_props(waiting, s.window, total);
    let n = run_len(waiting, s.window, total);
    assert(t.window == s.window + n);
    assert(t.pending == waiting.restrict(Set::new(|j: int| j >= s.window + n)));
    assert forall|j: int| t.pending.contains_key(j) implies t.window < j < t.total() by {
        assert(waiting.contains_key(j));
        if j != k {
            assert(s.pending.contains_key(j));
        }
    }
    assert forall|j: int| seen(t, j) <==> seen(s, j) || j == k by {
        if seen(t, j) {
            if j < t.window {
                if j >= s.window {
                    assert(waiting.contains_key(j));
                }
            } else {
                assert(waiting.contains_key(j));
            }
        }
        if seen(s, j) || j == k {
            assert(j < s.window || waiting.contains_key(j));
            if j >= t.window {
                assert(t.pending.contains_key(j));
            }
        }
    }
}

/// Feeding pixels one after another keeps the encoder in order.
pub proof fn lemma_run_inv(s: EncoderState, msgs: Seq<Pixel>)
    requires
        s.inv(),
    ensures
        run(s, msgs).0.inv(),
        run(s, msgs).0.width == s.width,
        run(s, msgs).0.height == s.height,
        s.window <= run(s, msgs).0.window,
    decreases msgs.len(),
{
    if msgs.len() > 0 {
        lemma_run_inv(s, msgs.drop_last());
        lemma_fed_inv(run(s, msgs.drop_last()).0, msgs.last());
    }
}

/// The encoder after the header of an image of the given size is written.
pub open spec fn begun(width: u32, height: u32) -> EncoderState {
    EncoderState::fresh(width, height).started().0
}

/// Once started, an encoder is in order, awaits pixels and has written the
/// header.
pub proof fn lemma_begun(width: u32, height: u32)
    ensures
        begun(width, height).inv(),
        begun(width, height).window == 0,
        begun(width, height).pending == Map::<int, Nrgba64Be>::empty(),
        begun(width, height).error is None,
        begun(width, height).phase is Streaming,
        EncoderState::fresh(width, height).started().1 == header(width, height),
{
    assert(0 <= width as int * height as int) by (nonlinear_arith)
        requires
            width >= 0,
            height >= 0,
    ;
}

/// An image without pixels: every pixel lies outside it and ends the
/// encoding as out of bounds; when the queue is closed and no pixel has come,
/// the file is the header.
pub proof fn lemma_image_without_pixels(width: u32, height: u32, msg: Pixel)
    requires
        width as int * height as int == 0,
    ensures
        begun(width, height).fed(msg) == (
            EncoderState {
                phase: Phase::Failed,
                error: Some(StreamError::OutOfBounds { x: msg.x, y: msg.y }),
                ..begun(width, height)
            },
            Seq::<u8>::empty(),
        ),
        encoded(width, height, Seq::<Pixel>::empty()) == Ok::<Seq<u8>, StreamError>(
            header(width, height),
        ),
{
    lemma_begun(width, height);
    assert(width == 0 || height == 0) by (nonlinear_arith)
        requires
            width as int * height as int == 0,
            width >= 0,
            height >= 0,
    ;
    assert(header(width, height) + Seq::<u8>::empty() =~= header(width, height));
}

/// While an encoder awaits pixels, every pixel that it was fed lies in the
/// image and is seen.
pub proof fn lemma_streaming_trace(width: u32, height: u32, msgs: Seq<Pixel>, i: int)
    requires
        run(begun(width, height), msgs).0.phase is Streaming,
        0 <= i < msgs.len(),
    ensures
        msgs[i].x < width,
        msgs[i].y < height,
        seen(run(begun(width, height), msgs).0, msgs[i].index(width)),
    decreases msgs.len(),
{
    lemma_begun(width, height);
    let b = begun(width, height);
    let before = run(b, msgs.drop_last()).0;
    lemma_run_inv(b, msgs.drop_last());
    lemma_fed_inv(before, msgs.last());
    assert(before.phase is Streaming);
    assert(before.admits(msgs.last()) is Ok);
    lemma_fed(before, msgs.last());
    if i < msgs.len() - 1 {
        lemma_streaming_trace(width, height, msgs.drop_last(), i);
        assert(msgs.drop_last()[i] == msgs[i]);
    }
}

/// Duplicate rejection: while an encoder awaits pixels, a pixel at the place
/// of one that it was fed before ends the encoding as a duplicate, and no
/// byte is written for it.
pub proof fn lemma_duplicate_rejected(width: u32, height: u32, msgs: Seq<Pixel>, i: int, dup: Pixel)
    requires
        run(begun(width, height), msgs).0.phase is Streaming,
        0 <= i < msgs.len(),
        dup.x == msgs[i].x,
        dup.y == msgs[i].y,
    ensures
        run(begun(width, height), msgs.push(dup)).1 == run(begun(width, height), msgs).1,
        run(begun(width, height), msgs.push(dup)).0 == (EncoderState {
            phase: Phase::Failed,
            error: Some(StreamError::DuplicatePixel { x: dup.x, y: dup.y }),
            ..run(begun(width, height), msgs).0
        }),
        encoded(width, height, msgs.push(dup)) == Err::<Seq<u8>, StreamError>(
            StreamError::DuplicatePixel { x: dup.x, y: dup.y },
        ),
{
    lemma_begun(width, height);
    let b = begun(width, height);
    let s = run(b, msgs).0;
    lemma_run_inv(b, msgs);
    lemma_streaming_trace(width, height, msgs, i);
    let longer = msgs.push(dup);
    assert(longer.drop_last() =~= msgs);
    assert(longer.last() == dup);
    assert(dup.index(width) == msgs[i].index(width));
    assert(run(b, msgs).1 + Seq::<u8>::empty() =~= run(b, msgs).1);
}

/// Bounds rejection: while an encoder awaits pixels, a pixel outside the
/// image ends the encoding as out of bounds, and no byte is written for it.
pub proof fn lemma_out_of_bounds_rejected(s: EncoderState, msg: Pixel)
    requires
        s.phase is Streaming,
        msg.x >= s.width || msg.y >= s.height,
    ensures
        s.fed(msg) == (
            EncoderState {
                phase: Phase::Failed,
                error: Some(StreamError::OutOfBounds { x: msg.x, y: msg.y }),
                ..s
            },
            Seq::<u8>::empty(),
        ),
{
}

/// What holds of an encoder `s` that has written the bytes `o` after the
/// distinct pixels `msgs` of an image: no error; the pixels seen are those
/// that arrived; the colours that wait are those of the image; and the bytes
/// written are the bytes of the image in row-major order, up to the window.
pub open spec fn written_in_order(
    width: u32,
    height: u32,
    colors: Seq<Nrgba64Be>,
    msgs: Seq<Pixel>,
    s: EncoderState,
    o: Seq<u8>,
) -> bool {
    &&& s.inv()
    &&& s.width == width
    &&& s.height == height
    &&& s.error is None
    &&& s.phase is Streaming || s.phase is Complete
    &&& o == row_major(colors.take(s.window))
    &&& forall|k: int| #[trigger] seen(s, k) ==> placed(width, msgs, k)
    &&& s.phase is Streaming ==> forall|i: int|
        0 <= i < msgs.len() ==> seen(s, (#[trigger] msgs[i]).index(width))
    &&& forall|k: int| #[trigger] s.pending.contains_key(k) ==> s.pending[k] == colors[k]
}

/// A pixel that lies where none of the earlier ones lies is not seen yet.
proof fn lemma_new_is_unseen(
    width: u32,
    height: u32,
    colors: Seq<Nrgba64Be>,
    front: Seq<Pixel>,
    msg: Pixel,
    s: EncoderState,
    o: Seq<u8>,
)
    requires
        written_in_order(width, height, colors, front, s, o),
        distinct_in_bounds(width, height, front.push(msg)),
    ensures
        !seen(s, msg.index(width)),
{
    let msgs = front.push(msg);
    let k = msg.index(width);
    if seen(s, k) {
        assert(placed(width, front, k));
        let i = choose|i: int| 0 <= i < front.len() && (#[trigger] front[i]).index(width) == k;
        assert(msgs[i] == front[i]);
        assert(msgs[front.len() as int] == msg);
        assert(msgs[i].x < width && msgs[front.len() as int].x < width);
        lemma_linear_injective(msgs[i].x, msgs[i].y, msg.x, msg.y, width);
        assert(msgs[i].x != msgs[front.len() as int].x || msgs[i].y != msgs[front.len() as int].y);
    }
}

/// The bytes that a taken pixel lets out continue the image in row-major
/// order.
proof fn lemma_step_bytes(
    width: u32,
    height: u32,
    colors: Seq<Nrgba64Be>,
    front: Seq<Pixel>,
    msg: Pixel,
    s: EncoderState,
    o: Seq<u8>,
)
    requires
        colors.len() == width as int * height as int,
        written_in_order(width, height, colors, front, s, o),
        s.phase is Streaming,
        s.admits(msg) is Ok,
        msg.color == colors[msg.index(width)],
    ensures
        o + s.fed(msg).1 == row_major(colors.take(s.fed(msg).0.window)),
        forall|k: int| #[trigger]
            s.fed(msg).0.pending.contains_key(k) ==> s.fed(msg).0.pending[k] == colors[k],
{
    lemma_fed(s, msg);
    let t = s.fed(msg).0;
    let k = msg.index(width);
    let waiting = s.pending.insert(k, msg.color);
    let n = (t.window - s.window) as nat;
    assert forall|j: int| s.window <= j < s.window + n implies ((
    #[trigger] waiting.contains_key(j)) && waiting[j] == colors[j]) by {
        assert(waiting.contains_key(j));
        if j != k {
            assert(s.pending.contains_key(j));
        }
    }
    lemma_body_is_row_major(colors, waiting, s.window, n);
    assert forall|j: int| #[trigger] t.pending.contains_key(j) implies t.pending[j]
        == colors[j] by {
        assert(t.pending[j] == waiting[j]);
        if j != k {
            assert(s.pending.contains_key(j));
        }
    }
}

/// The pixels seen after a taken pixel are those that have arrived.
proof fn lemma_step_seen(
    width: u32,
    height: u32,
    colors: Seq<Nrgba64Be>,
    front: Seq<Pixel>,
    msg: Pixel,
    s: EncoderState,
    o: Seq<u8>,
)
    requires
        written_in_order(width, height, colors, front, s, o),
        s.phase is Streaming,
        s.admits(msg) is Ok,
    ensures
        forall|k: int| #[trigger] seen(s.fed(msg).0, k) ==> placed(width, front.push(msg), k),
        forall|i: int|
            0 <= i < front.push(msg).len() ==> seen(
                s.fed(msg).0,
                (#[trigger] front.push(msg)[i]).index(width),
            ),
{
    lemma_fed(s, msg);
    let t = s.fed(msg).0;
    let k = msg.index(width);
    let msgs = front.push(msg);
    assert forall|j: int| #[trigger] seen(t, j) implies placed(width, msgs, j) by {
        if j == k {
            assert(msgs[front.len() as int].index(width) == j);
        } else {
            assert(seen(s, j));
            assert(placed(width, front, j));
            let i = choose|i: int| 0 <= i < front.len() && (#[trigger] front[i]).index(width) == j;
            assert(msgs[i].index(width) == j);
        }
    }
    assert forall|i: int| 0 <= i < msgs.len() implies seen(
        t,
        (#[trigger] msgs[i]).index(width),
    ) by {
        if i < front.len() {
            assert(front[i] == msgs[i]);
            assert(seen(s, front[i].index(width)));
        }
    }
}

/// One more distinct pixel of the image leaves an encoder as
/// [`written_in_order`] says.
pub proof fn lemma_prefix_step(
    width: u32,
    height: u32,
    colors: Seq<Nrgba64Be>,
    front: Seq<Pixel>,
    msg: Pixel,
    s: EncoderState,
    o: Seq<u8>,
)
    requires
        colors.len() == width as int * height as int,
        written_in_order(width, height, colors, front, s, o),
        distinct_in_bounds(width, height, front.push(msg)),
        colored(width, colors, front.push(msg)),
    ensures
        written_in_order(
            width,
            height,
            colors,
            front.push(msg),
            s.fed(msg).0,
            o + s.fed(msg).1,
        ),
{
    let msgs = front.push(msg);
    let t = s.fed(msg).0;
    assert(msgs[front.len() as int] == msg);
    assert(msg.x < width && msg.y < height);
    assert(msg.color == colors[msg.index(width)]);
    if s.phase is Streaming {
        lemma_new_is_unseen(width, height, colors, front, msg, s, o);
        assert(s.admits(msg) is Ok);
        lemma_fed(s, msg);
        lemma_step_bytes(width, height, colors, front, msg, s, o);
        lemma_step_seen(width, height, colors, front, msg, s, o);
    } else {
        assert(s.fed(msg) == (s, Seq::<u8>::empty()));
        assert(o + Seq::<u8>::empty() =~= o);
        assert forall|j: int| #[trigger] seen(s, j) implies placed(width, msgs, j) by {
            assert(placed(width, front, j));
            let i = choose|i: int| 0 <= i < front.len() && (#[trigger] front[i]).index(width) == j;
            assert(msgs[i].index(width) == j);
        }
    }
}

/// The state that distinct pixels of an image lead to, in whatever order
/// they arrive, is as [`written_in_order`] says.
pub proof fn lemma_prefix_written(
    width: u32,
    height: u32,
    colors: Seq<Nrgba64Be>,
    msgs: Seq<Pixel>,
)
    requires
        colors.len() == width as int * height as int,
        distinct_in_bounds(width, height, msgs),
        colored(width, colors, msgs),
    ensures
        written_in_order(
            width,
            height,
            colors,
            msgs,
            run(begun(width, height), msgs).0,
            run(begun(width, height), msgs).1,
        ),
    decreases msgs.len(),
{
    lemma_begun(width, height);
    let b = begun(width, height);
    if msgs.len() == 0 {
        assert(colors.take(0) =~= Seq::<Nrgba64Be>::empty());
    } else {
        let front = msgs.drop_last();
        let msg = msgs.last();
        assert(front.push(msg) =~= msgs);
        assert forall|i: int| 0 <= i < front.len() implies #[trigger] front[i] == msgs[i] by {}
        lemma_prefix_written(width, height, colors, front);
        lemma_prefix_step(width, height, colors, front, msg, run(b, front).0, run(b, front).1);
    }
}

/// Order independence: when every place of an image has one pixel, the file
/// is the header and then the bytes of the colours in row-major order, in
/// whatever order the pixels arrive.
pub proof fn lemma_order_independence(
    width: u32,
    height: u32,
    colors: Seq<Nrgba64Be>,
    msgs: Seq<Pixel>,
)
    requires
        colors.len() == width as int * height as int,
        distinct_in_bounds(width, height, msgs),
        colored(width, colors, msgs),
        covers(width, height, msgs),
    ensures
        encoded(width, height, msgs) == Ok::<Seq<u8>, StreamError>(
            header(width, height) + row_major(colors),
        ),
{
    lemma_begun(width, height);
    lemma_prefix_written(width, height, colors, msgs);
    let s = run(begun(width, height), msgs).0;
    if s.phase is Streaming && s.window < s.total() {
        assert(placed(width, msgs, s.window));
        let i = choose|i: int| 0 <= i < msgs.len() && (#[trigger] msgs[i]).index(width)
            == s.window;
        assert(seen(s, msgs[i].index(width)));
        assert(false);
    }
    assert(s.closed().phase is Complete);
    assert(s.window == s.total());
    assert(colors.take(s.window) =~= colors);
}

/// Order independence, of two orders: the same pixels in two orders give the
/// same file.
pub proof fn lemma_same_file(
    width: u32,
    height: u32,
    colors: Seq<Nrgba64Be>,
    one: Seq<Pixel>,
    other: Seq<Pixel>,
)
    requires
        colors.len() == width as int * height as int,
        distinct_in_bounds(width, height, one),
        colored(width, colors, one),
        covers(width, height, one),
        distinct_in_bounds(width, height, other),
        colored(width, colors, other),
        covers(width, height, other),
    ensures
        encoded(width, height, one) == encoded(width, height, other),
{
    lemma_order_independence(width, height, colors, one);
    lemma_order_independence(width, height, colors, other);
}

/// Bounded memory: the colours that wait are no more than the senders run
/// ahead. Where none of them lies more than `ahead` positions after the
/// window, no more than `ahead` wait, however many pixels the image has.
pub proof fn lemma_pending_bounded(s: EncoderState, ahead: nat)
    requires
        s.inv(),
        forall|k: int| s.pending.contains_key(k) ==> k <= s.window + ahead,
    ensures
        s.pending.dom().finite(),
        s.pending.dom().len() <= ahead,
{
    let range = vstd::set_lib::set_int_range(s.window + 1, s.window + 1 + ahead);
    vstd::set_lib::lemma_int_range(s.window + 1, s.window + 1 + ahead);
    assert forall|k: int| s.pending.dom().contains(k) implies range.contains(k) by {
        assert(s.pending.contains_key(k));
    }
    vstd::set_lib::lemma_len_subset(s.pending.dom(), range);
}

/// A sequence that holds every number below `n` has at least `n` places.
pub proof fn lemma_pigeonhole(s: Seq<int>, n: nat)
    requires
        forall|k: int| 0 <= k < n ==> s.contains(k),
    ensures
        s.len() >= n,
    decreases n,
{
    if n > 0 {
        assert(s.contains(n - 1));
        let i = choose|i: int| 0 <= i < s.len() && s[i] == n - 1;
        let t = s.remove(i);
        assert forall|k: int| 0 <= k < n - 1 implies t.contains(k) by {
            assert(s.contains(k));
            let j = choose|j: int| 0 <= j < s.len() && s[j] == k;
            if j < i {
                assert(t[j] == k);
            } else {
                assert(t[j - 1] == k);
            }
        }
        lemma_pigeonhole(t, (n - 1) as nat);
    }
}

/// The colour that the pixels give to a place.
pub open spec fn color_at(width: u32, msgs: Seq<Pixel>, k: int) -> Nrgba64Be {
    msgs[choose|i: int| 0 <= i < msgs.len() && (#[trigger] msgs[i]).index(width) == k].color
}

/// Early closure: when fewer distinct pixels have arrived than the image has
/// and the queue is closed, the encoding fails as incomplete.
pub proof fn lemma_early_closure(width: u32, height: u32, msgs: Seq<Pixel>)
    requires
        distinct_in_bounds(width, height, msgs),
        msgs.len() < width as int * height as int,
    ensures
        encoded(width, height, msgs) == Err::<Seq<u8>, StreamError>(StreamError::IncompleteStream),
{
    let total = width as int * height as int;
    let colors = Seq::new(total as nat, |k: int| color_at(width, msgs, k));
    assert forall|i: int| 0 <= i < msgs.len() implies (#[trigger] msgs[i]).color
        == colors[msgs[i].index(width)] by {
        let k = msgs[i].index(width);
        lemma_index_bound(msgs[i], width, height);
        let j = choose|j: int| 0 <= j < msgs.len() && (#[trigger] msgs[j]).index(width) == k;
        lemma_linear_injective(msgs[i].x, msgs[i].y, msgs[j].x, msgs[j].y, width);
        if i < j {
            assert(msgs[i].x != msgs[j].x || msgs[i].y != msgs[j].y);
        } else if j < i {
            assert(msgs[j].x != msgs[i].x || msgs[j].y != msgs[i].y);
        }
    }
    lemma_begun(width, height);
    lemma_prefix_written(width, height, colors, msgs);
    let s = run(begun(width, height), msgs).0;
    if s.phase is Complete {
        let keys = Seq::new(msgs.len(), |i: int| msgs[i].index(width));
        assert forall|k: int| 0 <= k < total implies keys.contains(k) by {
            assert(seen(s, k));
            assert(placed(width, msgs, k));
            let i = choose|i: int| 0 <= i < msgs.len() && (#[trigger] msgs[i]).index(width) == k;
            assert(keys[i] == k);
        }
        lemma_pigeonhole(keys, total as nat);
        assert(false);
    }
}

} // verus!
