use super::pixel::{lemma_linear_injective, Pixel, StreamError};
use crate::color::Nrgba64Be;
use vstd::multiset::Multiset;
use vstd::prelude::*;

verus! {

/// The pixels that have arrived ahead of their turn, as a binary min-heap
/// ordered by position in row-major order.
pub struct ReorderBuffer {
    width: u32,
    height: u32,
    /// Every position below this one has been released.
    floor: u64,
    heap: Vec<Pixel>,
}

/// The parent of every element but the first is not after it.
spec fn heap_ordered(s: Seq<Pixel>, width: u32) -> bool {
    forall|i: int| 0 < i < s.len() ==> s[(i - 1) / 2].index(width) <= (#[trigger] s[i]).index(width)
}

/// As [`heap_ordered`], but nothing is said of `hole` and its parent.
spec fn ordered_above(s: Seq<Pixel>, width: u32, hole: int) -> bool {
    &&& forall|i: int|
        0 < i < s.len() && i != hole ==> s[(i - 1) / 2].index(width) <= (#[trigger] s[i]).index(
            width,
        )
    &&& forall|i: int|
        0 < i < s.len() && (i - 1) / 2 == hole && hole > 0 ==> s[(hole - 1) / 2].index(width) <= (
        #[trigger] s[i]).index(width)
}

/// As [`heap_ordered`], but nothing is said of `hole` and its children.
spec fn ordered_below(s: Seq<Pixel>, width: u32, hole: int) -> bool {
    &&& forall|i: int|
        0 < i < s.len() && (i - 1) / 2 != hole ==> s[(i - 1) / 2].index(width) <= (
        #[trigger] s[i]).index(width)
    &&& forall|i: int|
        0 < i < s.len() && (i - 1) / 2 == hole && hole > 0 ==> s[(hole - 1) / 2].index(width) <= (
        #[trigger] s[i]).index(width)
}

/// Every pixel lies in the image and at or after `floor`.
spec fn members_ok(m: Multiset<Pixel>, width: u32, height: u32, floor: u64) -> bool {
    forall|p: Pixel| #[trigger]
        m.count(p) > 0 ==> p.x < width && p.y < height && floor <= p.index(width)
}

/// No two pixels share a position.
spec fn positions_distinct(m: Multiset<Pixel>, width: u32) -> bool {
    &&& forall|p: Pixel| #[trigger] m.count(p) <= 1
    &&& forall|p: Pixel, q: Pixel|
        #![trigger m.count(p), m.count(q)]
        m.count(p) > 0 && m.count(q) > 0 && p.index(width) == q.index(width) ==> p == q
}

/// The colours of the pixels by their positions.
spec fn entries(m: Multiset<Pixel>, width: u32) -> Map<int, Nrgba64Be> {
    Map::new(
        |k: int| exists|p: Pixel| #[trigger] m.count(p) > 0 && p.index(width) == k,
        |k: int| (choose|p: Pixel| #[trigger] m.count(p) > 0 && p.index(width) == k).color,
    )
}

proof fn lemma_entries_insert(m: Multiset<Pixel>, p: Pixel, width: u32)
    requires
        positions_distinct(m.insert(p), width),
    ensures
        entries(m.insert(p), width) == entries(m, width).insert(p.index(width), p.color),
{
    broadcast use vstd::multiset::group_multiset_axioms;

    let m2 = m.insert(p);
    let a = entries(m2, width);
    let b = entries(m, width).insert(p.index(width), p.color);
    assert(m2.count(p) > 0);
    assert forall|k: int| a.dom().contains(k) <==> b.dom().contains(k) by {
        if a.dom().contains(k) {
            let q = choose|q: Pixel| #[trigger] m2.count(q) > 0 && q.index(width) == k;
            if q != p {
                assert(m.count(q) > 0);
            }
        }
        if b.dom().contains(k) {
            if k != p.index(width) {
                let q = choose|q: Pixel| #[trigger] m.count(q) > 0 && q.index(width) == k;
                assert(m2.count(q) > 0);
            }
        }
    }
    assert forall|k: int| a.dom().contains(k) implies a[k] == b[k] by {
        let q = choose|q: Pixel| #[trigger] m2.count(q) > 0 && q.index(width) == k;
        if k == p.index(width) {
            assert(q == p);
        } else {
            assert(m.count(q) > 0);
            let q0 = choose|q: Pixel| #[trigger] m.count(q) > 0 && q.index(width) == k;
            assert(m2.count(q0) > 0);
            assert(q0 == q);
        }
    }
    assert(a =~= b);
}

proof fn lemma_entries_remove(m: Multiset<Pixel>, p: Pixel, width: u32)
    requires
        positions_distinct(m, width),
        m.count(p) > 0,
    ensures
        entries(m.remove(p), width) == entries(m, width).remove(p.index(width)),
        entries(m, width).contains_key(p.index(width)),
        entries(m, width)[p.index(width)] == p.color,
{
    broadcast use vstd::multiset::group_multiset_axioms;

    let m2 = m.remove(p);
    let a = entries(m2, width);
    let b = entries(m, width).remove(p.index(width));
    assert(m.count(p) == 1);
    assert(m2.count(p) == 0);
    assert forall|k: int| a.dom().contains(k) <==> b.dom().contains(k) by {
        if a.dom().contains(k) {
            let q = choose|q: Pixel| #[trigger] m2.count(q) > 0 && q.index(width) == k;
            assert(m.count(q) > 0);
            assert(q != p);
        }
        if b.dom().contains(k) {
            let q = choose|q: Pixel| #[trigger] m.count(q) > 0 && q.index(width) == k;
            assert(q != p);
            assert(m2.count(q) > 0);
        }
    }
    assert forall|k: int| a.dom().contains(k) implies a[k] == b[k] by {
        let q = choose|q: Pixel| #[trigger] m2.count(q) > 0 && q.index(width) == k;
        assert(m.count(q) > 0);
        let q0 = choose|q: Pixel| #[trigger] m.count(q) > 0 && q.index(width) == k;
        assert(q0 == q);
    }
    assert(a =~= b);
    let q1 = choose|q: Pixel| #[trigger] m.count(q) > 0 && q.index(width) == p.index(width);
    assert(q1 == p);
}

/// In a heap the first element is not after any other.
proof fn lemma_first_is_least(s: Seq<Pixel>, width: u32, i: int)
    requires
        heap_ordered(s, width),
        0 <= i < s.len(),
    ensures
        s[0].index(width) <= s[i].index(width),
    decreases i,
{
    if i > 0 {
        lemma_first_is_least(s, width, (i - 1) / 2);
        assert(s[(i - 1) / 2].index(width) <= s[i].index(width));
    }
}

/// A sequence of distinct numbers of a range is no longer than the range.
proof fn lemma_distinct_in_range(s: Seq<int>, lo: int, hi: int)
    requires
        forall|i: int| 0 <= i < s.len() ==> lo <= #[trigger] s[i] < hi,
        forall|i: int, j: int| 0 <= i < j < s.len() ==> s[i] != s[j],
    ensures
        lo <= hi ==> s.len() <= hi - lo,
        lo > hi ==> s.len() == 0,
    decreases hi - lo,
{
    if lo >= hi {
        if s.len() > 0 {
            assert(lo <= s[0] < hi);
        }
    } else {
        if exists|j: int| 0 <= j < s.len() && s[j] == hi - 1 {
            let j = choose|j: int| 0 <= j < s.len() && s[j] == hi - 1;
            let t = s.remove(j);
            assert forall|i: int| 0 <= i < t.len() implies lo <= #[trigger] t[i] < hi - 1 by {
                if i < j {
                    assert(t[i] == s[i]);
                } else {
                    assert(t[i] == s[i + 1]);
                }
            }
            assert forall|a: int, b: int| 0 <= a < b < t.len() implies t[a] != t[b] by {
                let a2 = if a < j { a } else { a + 1 };
                let b2 = if b < j { b } else { b + 1 };
                assert(t[a] == s[a2] && t[b] == s[b2]);
            }
            lemma_distinct_in_range(t, lo, hi - 1);
        } else {
            lemma_distinct_in_range(s, lo, hi - 1);
        }
    }
}

/// An empty sequence holds no pixel.
proof fn lemma_no_pixels(s: Seq<Pixel>)
    requires
        s.len() == 0,
    ensures
        forall|p: Pixel| s.to_multiset().count(p) == 0,
{
    broadcast use vstd::seq_lib::group_to_multiset_ensures;

    vstd::multiset::lemma_multiset_empty_len(s.to_multiset());
    assert(s.to_multiset() =~= Multiset::<Pixel>::empty());
}

/// Exchanging two elements leaves the same elements.
proof fn lemma_swap_multiset(s: Seq<Pixel>, i: int, j: int)
    requires
        0 <= i < s.len(),
        0 <= j < s.len(),
    ensures
        s.update(i, s[j]).update(j, s[i]).to_multiset() == s.to_multiset(),
{
    broadcast use vstd::seq_lib::group_to_multiset_ensures;
    broadcast use vstd::multiset::group_multiset_axioms;

    let t = s.update(i, s[j]);
    assert(t.to_multiset() == s.to_multiset().insert(s[j]).remove(s[i]));
    assert(t.update(j, s[i]).to_multiset() == t.to_multiset().insert(s[i]).remove(t[j]));
    assert(s.to_multiset().count(s[i]) > 0);
    assert(s.to_multiset().count(s[j]) > 0);
    assert(t.update(j, s[i]).to_multiset() =~= s.to_multiset());
}

/// Every element of a sequence is among its elements.
proof fn lemma_member(s: Seq<Pixel>, i: int)
    requires
        0 <= i < s.len(),
    ensures
        s.to_multiset().count(s[i]) > 0,
{
    broadcast use vstd::seq_lib::group_to_multiset_ensures;

    assert(s.contains(s[i]));
}

/// Every one of the elements of a sequence stands somewhere in it.
proof fn lemma_member_index(s: Seq<Pixel>, p: Pixel) -> (i: int)
    requires
        s.to_multiset().count(p) > 0,
    ensures
        0 <= i < s.len(),
        s[i] == p,
{
    broadcast use vstd::seq_lib::group_to_multiset_ensures;

    assert(s.contains(p));
    choose|i: int| 0 <= i < s.len() && s[i] == p
}

/// A position that no element has is not among the entries.
proof fn lemma_absent(s: Seq<Pixel>, width: u32, key: int)
    requires
        forall|j: int| 0 <= j < s.len() ==> (#[trigger] s[j]).index(width) != key,
    ensures
        !entries(s.to_multiset(), width).contains_key(key),
{
    let m = s.to_multiset();
    assert forall|p: Pixel| #[trigger] m.count(p) > 0 implies p.index(width) != key by {
        let j = lemma_member_index(s, p);
    }
}

/// The position of every element is among the entries.
proof fn lemma_present(s: Seq<Pixel>, width: u32, i: int)
    requires
        0 <= i < s.len(),
    ensures
        entries(s.to_multiset(), width).contains_key(s[i].index(width)),
{
    lemma_member(s, i);
}

/// What holds once a pixel with a free position has been put behind a heap.
proof fn lemma_pushed(before: Seq<Pixel>, msg: Pixel, width: u32, height: u32, floor: u64)
    requires
        heap_ordered(before, width),
        members_ok(before.to_multiset(), width, height, floor),
        positions_distinct(before.to_multiset(), width),
        msg.x < width,
        msg.y < height,
        floor <= msg.index(width),
        !entries(before.to_multiset(), width).contains_key(msg.index(width)),
    ensures
        ordered_above(before.push(msg), width, before.len() as int),
        members_ok(before.push(msg).to_multiset(), width, height, floor),
        positions_distinct(before.push(msg).to_multiset(), width),
        entries(before.push(msg).to_multiset(), width) == entries(
            before.to_multiset(),
            width,
        ).insert(msg.index(width), msg.color),
{
    let s = before.push(msg);
    let m = before.to_multiset();
    let n = before.len() as int;
    assert(s.to_multiset() == m.insert(msg)) by {
        broadcast use vstd::seq_lib::group_to_multiset_ensures;

    }
    assert(ordered_above(s, width, n)) by {
        assert forall|j: int| 0 < j < s.len() && j != n implies s[(j - 1) / 2].index(width) <= (
        #[trigger] s[j]).index(width) by {
            assert(s[j] == before[j]);
            assert(s[(j - 1) / 2] == before[(j - 1) / 2]);
            assert(before[(j - 1) / 2].index(width) <= before[j].index(width));
        }
    }
    assert(m.count(msg) == 0) by {
        if m.count(msg) > 0 {
            assert(entries(m, width).contains_key(msg.index(width)));
        }
    }
    lemma_inserted(m, msg, width, height, floor);
    lemma_entries_insert(m, msg, width);
}

/// A set of pixels stays in order when a pixel with a free position joins.
proof fn lemma_inserted(m: Multiset<Pixel>, msg: Pixel, width: u32, height: u32, floor: u64)
    requires
        members_ok(m, width, height, floor),
        positions_distinct(m, width),
        msg.x < width,
        msg.y < height,
        floor <= msg.index(width),
        m.count(msg) == 0,
        !entries(m, width).contains_key(msg.index(width)),
    ensures
        members_ok(m.insert(msg), width, height, floor),
        positions_distinct(m.insert(msg), width),
{
    broadcast use vstd::multiset::group_multiset_axioms;

    let m2 = m.insert(msg);
    assert forall|p: Pixel| #[trigger] m2.count(p) > 0 implies p.x < width && p.y < height && floor
        <= p.index(width) by {
        if p != msg {
            assert(m.count(p) > 0);
        }
    }
    assert forall|p: Pixel| #[trigger] m2.count(p) <= 1 by {
        if p != msg {
            assert(m.count(p) <= 1);
        }
    }
    assert forall|p: Pixel, q: Pixel|
        #![trigger m2.count(p), m2.count(q)]
        m2.count(p) > 0 && m2.count(q) > 0 && p.index(width) == q.index(width) implies p == q by {
        if p != msg && q != msg {
            assert(m.count(p) > 0 && m.count(q) > 0);
        } else if p == msg && q != msg {
            assert(m.count(q) > 0);
            assert(entries(m, width).contains_key(q.index(width)));
        } else if q == msg && p != msg {
            assert(m.count(p) > 0);
            assert(entries(m, width).contains_key(p.index(width)));
        }
    }
}

/// A set of pixels stays in order when its first pixel leaves, and the
/// floor can then stand behind that pixel.
proof fn lemma_removed(m: Multiset<Pixel>, top: Pixel, width: u32, height: u32, floor: u64)
    requires
        members_ok(m, width, height, floor),
        positions_distinct(m, width),
        m.count(top) > 0,
        forall|p: Pixel| #[trigger] m.count(p) > 0 ==> top.index(width) <= p.index(width),
    ensures
        positions_distinct(m.remove(top), width),
        forall|p: Pixel| #[trigger]
            m.remove(top).count(p) > 0 ==> p.x < width && p.y < height && top.index(width) + 1
                <= p.index(width),
{
    broadcast use vstd::multiset::group_multiset_axioms;

    let m2 = m.remove(top);
    assert(m.count(top) == 1);
    assert forall|p: Pixel| #[trigger] m2.count(p) > 0 implies p.x < width && p.y < height
        && top.index(width) + 1 <= p.index(width) by {
        assert(m.count(p) > 0);
        assert(p != top);
        if p.index(width) == top.index(width) {
            assert(m.count(top) > 0);
            assert(p == top);
        }
    }
    assert forall|p: Pixel| #[trigger] m2.count(p) <= 1 by {
        assert(m.count(p) <= 1);
    }
    assert forall|p: Pixel, q: Pixel|
        #![trigger m2.count(p), m2.count(q)]
        m2.count(p) > 0 && m2.count(q) > 0 && p.index(width) == q.index(width) implies p == q by {
        assert(m.count(p) > 0 && m.count(q) > 0);
    }
}

/// What holds once the last element of a heap has taken the place of the
/// first.
proof fn lemma_popped(before: Seq<Pixel>, width: u32, height: u32, floor: u64)
    requires
        before.len() > 0,
        heap_ordered(before, width),
        members_ok(before.to_multiset(), width, height, floor),
        positions_distinct(before.to_multiset(), width),
    ensures
        ({
            let top = before[0];
            let s = before.update(0, before.last()).drop_last();
            let k = top.index(width);
            &&& top.x < width
            &&& top.y < height
            &&& s.len() > 0 ==> ordered_below(s, width, 0)
            &&& positions_distinct(s.to_multiset(), width)
            &&& forall|p: Pixel| #[trigger]
                s.to_multiset().count(p) > 0 ==> p.x < width && p.y < height && k + 1 <= p.index(
                    width,
                )
            &&& entries(before.to_multiset(), width).contains_key(k)
            &&& entries(before.to_multiset(), width)[k] == top.color
            &&& forall|j: int| entries(before.to_multiset(), width).contains_key(j) ==> k <= j
            &&& entries(s.to_multiset(), width) == entries(before.to_multiset(), width).remove(k)
        }),
{
    let top = before[0];
    let t = before.update(0, before.last());
    let s = t.drop_last();
    let m = before.to_multiset();
    lemma_member(before, 0);
    lemma_member(before, before.len() - 1);
    assert(s.to_multiset() == m.remove(top)) by {
        lemma_swap_out(before);
    }
    assert(s.len() > 0 ==> ordered_below(s, width, 0)) by {
        assert forall|j: int| 0 < j < s.len() && (j - 1) / 2 != 0 implies s[(j - 1) / 2].index(
            width,
        ) <= (#[trigger] s[j]).index(width) by {
            assert(s[j] == before[j]);
            assert(s[(j - 1) / 2] == before[(j - 1) / 2]);
            assert(before[(j - 1) / 2].index(width) <= before[j].index(width));
        }
    }
    assert forall|p: Pixel| #[trigger] m.count(p) > 0 implies top.index(width) <= p.index(
        width,
    ) by {
        let i = lemma_member_index(before, p);
        lemma_first_is_least(before, width, i);
    }
    assert forall|j: int| entries(m, width).contains_key(j) implies top.index(width) <= j by {
        let q = choose|q: Pixel| #[trigger] m.count(q) > 0 && q.index(width) == j;
        assert(m.count(q) > 0);
    }
    lemma_removed(m, top, width, height, floor);
    lemma_entries_remove(m, top, width);
}

/// Putting the last element in the place of the first and dropping the last
/// place removes the first element.
proof fn lemma_swap_out(before: Seq<Pixel>)
    requires
        before.len() > 0,
    ensures
        before.update(0, before.last()).drop_last().to_multiset() == before.to_multiset().remove(
            before[0],
        ),
{
    broadcast use vstd::seq_lib::group_to_multiset_ensures;
    broadcast use vstd::multiset::group_multiset_axioms;

    let t = before.update(0, before.last());
    let s = t.drop_last();
    let n = before.len() as int;
    lemma_member(before, 0);
    lemma_member(before, n - 1);
    assert(t.to_multiset() == before.to_multiset().insert(before.last()).remove(before[0]));
    assert(s =~= t.remove(n - 1));
    assert(s.to_multiset() == t.to_multiset().remove(t[n - 1]));
    if n == 1 {
        assert(t[n - 1] == before.last());
    } else {
        assert(t[n - 1] == before.last());
    }
    assert(s.to_multiset() =~= before.to_multiset().remove(before[0]));
}

/// Exchanges two elements.
fn swap(heap: &mut Vec<Pixel>, i: usize, j: usize)
    requires
        i < old(heap).len(),
        j < old(heap).len(),
    ensures
        final(heap)@ == old(heap)@.update(i as int, old(heap)@[j as int]).update(
            j as int,
            old(heap)@[i as int],
        ),
        final(heap)@.to_multiset() == old(heap)@.to_multiset(),
{
    proof {
        lemma_swap_multiset(heap@, i as int, j as int);
    }
    let a = heap[i];
    let b = heap[j];
    heap.set(i, b);
    heap.set(j, a);
}

/// Moves the element at `start` towards the front until its parent is not
/// after it.
fn sift_up(heap: &mut Vec<Pixel>, width: u32, start: usize)
    requires
        start < old(heap).len(),
        ordered_above(old(heap)@, width, start as int),
    ensures
        heap_ordered(final(heap)@, width),
        final(heap)@.to_multiset() == old(heap)@.to_multiset(),
        final(heap)@.len() == old(heap)@.len(),
{
    let mut i = start;
    while i > 0
        invariant
            i < heap.len(),
            heap@.len() == old(heap)@.len(),
            heap@.to_multiset() == old(heap)@.to_multiset(),
            ordered_above(heap@, width, i as int),
        ensures
            heap_ordered(heap@, width),
            heap@.len() == old(heap)@.len(),
            heap@.to_multiset() == old(heap)@.to_multiset(),
        decreases i,
    {
        let parent = (i - 1) / 2;
        if heap[parent].coords(width) <= heap[i].coords(width) {
            break ;
        }
        let ghost before = heap@;
        swap(heap, parent, i);
        proof {
            let after = heap@;
            let h = parent as int;
            assert forall|j: int| 0 < j < after.len() && j != h implies after[(j - 1) / 2].index(
                width,
            ) <= (#[trigger] after[j]).index(width) by {
                if j == i {
                } else if (j - 1) / 2 == i {
                    assert(before[(i - 1) / 2].index(width) <= before[j].index(width));
                } else if (j - 1) / 2 == h {
                    assert(before[h].index(width) <= before[j].index(width));
                } else {
                    assert(before[(j - 1) / 2].index(width) <= before[j].index(width));
                }
            }
            assert forall|j: int|
                0 < j < after.len() && (j - 1) / 2 == h && h > 0 implies after[(h - 1) / 2].index(
                width,
            ) <= (#[trigger] after[j]).index(width) by {
                assert(before[(h - 1) / 2].index(width) <= before[h].index(width));
                if j != i {
                    assert(before[h].index(width) <= before[j].index(width));
                }
            }
        }
        i = parent;
    }
}

/// Moves the element at `start` towards the back until neither child is
/// before it.
fn sift_down(heap: &mut Vec<Pixel>, width: u32, start: usize)
    requires
        start < old(heap).len(),
        ordered_below(old(heap)@, width, start as int),
    ensures
        heap_ordered(final(heap)@, width),
        final(heap)@.to_multiset() == old(heap)@.to_multiset(),
        final(heap)@.len() == old(heap)@.len(),
{
    let n = heap.len();
    let mut i = start;
    while i < n / 2
        invariant
            i < n,
            n == heap.len(),
            heap@.len() == old(heap)@.len(),
            heap@.to_multiset() == old(heap)@.to_multiset(),
            ordered_below(heap@, width, i as int),
        ensures
            heap_ordered(heap@, width),
            heap@.len() == old(heap)@.len(),
            heap@.to_multiset() == old(heap)@.to_multiset(),
        decreases n - i,
    {
        let left = 2 * i + 1;
        let right = left + 1;
        let mut least = left;
        if right < n && heap[right].coords(width) < heap[left].coords(width) {
            least = right;
        }
        if heap[i].coords(width) <= heap[least].coords(width) {
            proof {
                let s = heap@;
                assert forall|j: int| 0 < j < s.len() implies s[(j - 1) / 2].index(width) <= (
                #[trigger] s[j]).index(width) by {
                    if (j - 1) / 2 == i {
                        assert(j == left || j == right);
                    }
                }
            }
            break ;
        }
        let ghost before = heap@;
        swap(heap, i, least);
        proof {
            let after = heap@;
            let h = least as int;
            assert forall|j: int|
                0 < j < after.len() && (j - 1) / 2 != h implies after[(j - 1) / 2].index(width) <= (
            #[trigger] after[j]).index(width) by {
                if j == h {
                } else if (j - 1) / 2 == i {
                    assert(j == left || j == right);
                } else if j == i {
                    assert(before[(i - 1) / 2].index(width) <= before[h].index(width));
                } else {
                    assert(before[(j - 1) / 2].index(width) <= before[j].index(width));
                }
            }
            assert forall|j: int|
                0 < j < after.len() && (j - 1) / 2 == h && h > 0 implies after[(h - 1) / 2].index(
                width,
            ) <= (#[trigger] after[j]).index(width) by {
                assert(before[h].index(width) <= before[j].index(width));
            }
        }
        i = least;
    }
    proof {
        if i >= n / 2 {
            let s = heap@;
            assert forall|j: int| 0 < j < s.len() implies s[(j - 1) / 2].index(width) <= (
            #[trigger] s[j]).index(width) by {
                assert((j - 1) / 2 != i);
            }
        }
    }
}

impl ReorderBuffer {
    /// Width of the image that the pixels belong to.
    pub closed spec fn width(&self) -> u32 {
        self.width
    }

    /// Height of the image that the pixels belong to.
    pub closed spec fn height(&self) -> u32 {
        self.height
    }

    /// The position before which every pixel has been released.
    pub closed spec fn floor(&self) -> int {
        self.floor as int
    }

    /// Number of pixels held.
    pub closed spec fn count(&self) -> nat {
        self.heap@.len()
    }

    /// The colours held, by position in row-major order.
    pub closed spec fn view(&self) -> Map<int, Nrgba64Be> {
        entries(self.heap@.to_multiset(), self.width)
    }

    /// The pixels form a heap, lie in the image at or after the floor, and
    /// no two of them share a position.
    pub closed spec fn wf(&self) -> bool {
        &&& heap_ordered(self.heap@, self.width)
        &&& members_ok(self.heap@.to_multiset(), self.width, self.height, self.floor)
        &&& positions_distinct(self.heap@.to_multiset(), self.width)
    }

    /// An empty buffer for an image of the given size.
    pub fn new(width: u32, height: u32) -> (b: Self)
        ensures
            b.wf(),
            b.width() == width,
            b.height() == height,
            b.floor() == 0,
            b.count() == 0,
            b@ == Map::<int, Nrgba64Be>::empty(),
    {
        let b = ReorderBuffer { width, height, floor: 0, heap: Vec::new() };
        proof {
            lemma_no_pixels(b.heap@);
            assert(b@ =~= Map::<int, Nrgba64Be>::empty());
        }
        b
    }

    /// What [`Self::push`] answers to a pixel: whether it lies in the image,
    /// and whether its position is still free.
    pub open spec fn admits(&self, msg: Pixel) -> Result<(), StreamError> {
        if msg.x >= self.width() || msg.y >= self.height() {
            Err(StreamError::OutOfBounds { x: msg.x, y: msg.y })
        } else if msg.index(self.width()) < self.floor() || self@.contains_key(
            msg.index(self.width()),
        ) {
            Err(StreamError::DuplicatePixel { x: msg.x, y: msg.y })
        } else {
            Ok(())
        }
    }

    /// Takes a pixel in, unless it lies outside the image or its position
    /// has been taken before.
    pub fn push(&mut self, msg: Pixel) -> (r: Result<(), StreamError>)
        requires
            old(self).wf(),
        ensures
            final(self).wf(),
            final(self).width() == old(self).width(),
            final(self).height() == old(self).height(),
            final(self).floor() == old(self).floor(),
            r == old(self).admits(msg),
            r is Ok ==> final(self)@ == old(self)@.insert(
                msg.index(old(self).width()),
                msg.color,
            ) && final(self).count() == old(self).count() + 1,
            r is Err ==> final(self)@ == old(self)@ && final(self).count() == old(self).count(),
    {
        if msg.x >= self.width || msg.y >= self.height {
            return Err(StreamError::OutOfBounds { x: msg.x, y: msg.y });
        }
        let key = msg.coords(self.width);
        if key < self.floor {
            return Err(StreamError::DuplicatePixel { x: msg.x, y: msg.y });
        }
        let n = self.heap.len();
        let mut i: usize = 0;
        while i < n
            invariant
                i <= n,
                n == self.heap.len(),
                *self == *old(self),
                old(self).wf(),
                msg.x < self.width,
                msg.y < self.height,
                self.floor <= key,
                key == msg.index(self.width),
                forall|j: int| 0 <= j < i ==> (#[trigger] self.heap@[j]).index(self.width) != key,
            decreases n - i,
        {
            if self.heap[i].coords(self.width) == key {
                proof {
                    lemma_present(self.heap@, self.width, i as int);
                }
                return Err(StreamError::DuplicatePixel { x: msg.x, y: msg.y });
            }
            i += 1;
        }
        proof {
            lemma_absent(self.heap@, self.width, key as int);
            lemma_pushed(self.heap@, msg, self.width, self.height, self.floor);
        }
        self.heap.push(msg);
        sift_up(&mut self.heap, self.width, n);
        Ok(())
    }

    /// Hands out the first pixel in row-major order, if it is not after
    /// `window`.
    pub fn pop_ready(&mut self, window: u64) -> (r: Option<Pixel>)
        requires
            old(self).wf(),
        ensures
            final(self).wf(),
            final(self).width() == old(self).width(),
            final(self).height() == old(self).height(),
            r is Some <==> exists|k: int| old(self)@.contains_key(k) && k <= window,
            r is Some ==> {
                let p = r->Some_0;
                let k = p.index(old(self).width());
                &&& p.x < old(self).width()
                &&& p.y < old(self).height()
                &&& old(self)@.contains_key(k)
                &&& old(self)@[k] == p.color
                &&& k <= window
                &&& forall|j: int| old(self)@.contains_key(j) ==> k <= j
                &&& final(self)@ == old(self)@.remove(k)
                &&& final(self).floor() == k + 1
                &&& final(self).count() == old(self).count() - 1
            },
            r is None ==> final(self)@ == old(self)@ && final(self).floor() == old(self).floor()
                && final(self).count() == old(self).count(),
    {
        let n = self.heap.len();
        if n == 0 {
            proof {
                lemma_no_pixels(self.heap@);
            }
            return None;
        }
        let top = self.heap[0];
        proof {
            lemma_popped(self.heap@, self.width, self.height, self.floor);
        }
        if top.coords(self.width) > window {
            return None;
        }
        let _ = self.heap.swap_remove(0);
        if self.heap.len() > 0 {
            sift_down(&mut self.heap, self.width, 0);
        }
        assert(top.y as int * self.width as int <= 0xffff_ffff * 0xffff_ffff) by (nonlinear_arith)
            requires
                0 <= top.y <= 0xffff_ffff,
                0 <= self.width <= 0xffff_ffff,
        ;
        self.floor = top.coords(self.width) + 1;
        Some(top)
    }

    /// Whether no pixel is held.
    pub fn is_empty(&self) -> (r: bool)
        requires
            self.wf(),
        ensures
            r <==> self.count() == 0,
            r <==> self@ == Map::<int, Nrgba64Be>::empty(),
    {
        proof {
            if self.heap@.len() == 0 {
                lemma_no_pixels(self.heap@);
                assert(self@ =~= Map::<int, Nrgba64Be>::empty());
            } else {
                lemma_member(self.heap@, 0);
                assert(self@.contains_key(self.heap@[0].index(self.width)));
            }
        }
        self.heap.is_empty()
    }

    /// Number of pixels held.
    pub fn len(&self) -> (r: usize)
        ensures
            r == self.count(),
    {
        self.heap.len()
    }

    /// Pixels whose positions all lie in a range are no more than the range
    /// is long.
    pub proof fn lemma_count_bounded(&self, lo: int, hi: int)
        requires
            self.wf(),
            lo <= hi,
            forall|k: int| self@.contains_key(k) ==> lo <= k < hi,
        ensures
            self.count() <= hi - lo,
    {
        let s = self.heap@;
        let w = self.width;
        let keys = Seq::new(s.len(), |i: int| s[i].index(w));
        assert forall|i: int| 0 <= i < keys.len() implies lo <= #[trigger] keys[i] < hi by {
            lemma_member(s, i);
            assert(self@.contains_key(s[i].index(w)));
        }
        assert forall|i: int, j: int| 0 <= i < j < keys.len() implies keys[i] != keys[j] by {
            lemma_member(s, i);
            lemma_member(s, j);
            if keys[i] == keys[j] {
                assert(s[i] == s[j]);
                lemma_twice(s, i, j);
            }
        }
        lemma_distinct_in_range(keys, lo, hi);
    }

    /// Every pixel held lies in the image, at or after the floor.
    pub proof fn lemma_positions(&self, k: int)
        requires
            self.wf(),
            self@.contains_key(k),
        ensures
            self.floor() <= k < self.width() * self.height(),
    {
        let q = choose|q: Pixel| #[trigger]
            self.heap@.to_multiset().count(q) > 0 && q.index(self.width) == k;
        assert(q.y as int * self.width as int + q.x < self.width as int * self.height as int)
            by (nonlinear_arith)
            requires
                q.x < self.width,
                q.y < self.height,
        ;
    }
}

/// An element that stands at two places occurs at least twice.
proof fn lemma_twice(s: Seq<Pixel>, i: int, j: int)
    requires
        0 <= i < j < s.len(),
        s[i] == s[j],
    ensures
        s.to_multiset().count(s[i]) >= 2,
{
    broadcast use vstd::seq_lib::group_to_multiset_ensures;
    broadcast use vstd::multiset::group_multiset_axioms;

    let t = s.remove(j);
    assert(t.to_multiset() == s.to_multiset().remove(s[j]));
    assert(t[i] == s[i]);
    assert(t.contains(s[i]));
    assert(t.to_multiset().count(s[i]) > 0);
}

} // verus!
