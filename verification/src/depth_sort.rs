//! Ordering a point buffer by projected depth.
//!
//! Every sort pass is a full re-sort: the caller projects each point with the
//! current transform and hands over the perspective-divided depths; this
//! module decides the order and moves the points into it.

use crate::scalar::Scalar;
use rayon::slice::ParallelSliceMut;
use vstd::prelude::*;

verus! {

/// One point of a buffer as the sort sees it.
struct DepthEntry {
    /// Grows along the wanted order of the buffer.
    rank: i64,
    /// Position of the point in the unsorted buffer.
    index: usize,
}

impl DepthEntry {
    /// The key by which entries are sorted: rank first, then position.
    fn sort_key(&self) -> (key: (i64, usize))
        ensures
            key == (self.rank, self.index),
    {
        (self.rank, self.index)
    }
}

/// The order of sort keys: by rank, and among equal ranks by position.
spec fn key_le(a: DepthEntry, b: DepthEntry) -> bool {
    a.rank < b.rank || (a.rank == b.rank && a.index <= b.index)
}

/// The rank of a depth: its order when depths are to ascend along the
/// buffer, the negated order when they are to descend.
spec fn rank_of(depth: Scalar, descending: bool) -> int {
    if descending {
        -depth.order()
    } else {
        depth.order()
    }
}

/// Whether depth `a` may stand before depth `b` in a buffer of the given
/// direction.
pub open spec fn in_direction(a: Scalar, b: Scalar, descending: bool) -> bool {
    if descending {
        a.order() >= b.order()
    } else {
        a.order() <= b.order()
    }
}

/// Whether `order` is a rearrangement of the positions `0..n`: it names `n`
/// positions, each below `n`, none twice, none left out.
pub open spec fn is_arrangement(order: Seq<usize>, n: nat) -> bool {
    &&& order.len() == n
    &&& forall|i: int| 0 <= i < order.len() ==> (#[trigger] order[i]) < n
    &&& forall|i: int, j: int| 0 <= i < j < order.len() ==> order[i] != order[j]
    &&& forall|k: usize| k < n ==> order.contains(k)
}

/// Whether `order` lists the positions of `depths` in depth order: it is a
/// rearrangement of the positions, the depths it visits never step against
/// the direction, and positions of equal depth keep their relative order.
pub open spec fn is_depth_order(order: Seq<usize>, depths: Seq<Scalar>, descending: bool) -> bool {
    &&& is_arrangement(order, depths.len())
    &&& forall|i: int, j: int|
        0 <= i < j < order.len() ==> in_direction(
            depths[order[i] as int],
            depths[order[j] as int],
            descending,
        )
    &&& forall|i: int, j: int|
        0 <= i < j < order.len() && depths[order[i] as int].order() == depths[order[j] as int].order()
            ==> order[i] < order[j]
}

/// The points of `points` in the order that `order` names.
pub open spec fn rearranged<P>(points: Seq<P>, order: Seq<usize>) -> Seq<P> {
    Seq::new(order.len(), |i: int| points[order[i] as int])
}

/// rayon's `par_sort_by_cached_key`, on entries keyed by `sort_key`. The
/// contract claims what a sort by key is: afterwards the vector holds the
/// entries it held before, and their keys never decrease. Keys are pairs of
/// integers, which std orders by the first component and then the second.
#[verifier::external_body]
fn par_sort_entries(entries: &mut Vec<DepthEntry>)
    ensures
        final(entries)@.to_multiset() == old(entries)@.to_multiset(),
        forall|i: int, j: int|
            0 <= i < j < final(entries)@.len() ==> key_le(final(entries)@[i], final(entries)@[j]),
{
    entries.par_sort_by_cached_key(|e| e.sort_key());
}

/// The entry that stands for position `i` of `depths`.
spec fn entry_at(depths: Seq<Scalar>, descending: bool, i: int) -> DepthEntry {
    DepthEntry { rank: rank_of(depths[i], descending) as i64, index: i as usize }
}

/// A sorted rearrangement of the entries of `depths` visits the positions in
/// depth order.
proof fn lemma_sorted_entries_give_order(
    unsorted: Seq<DepthEntry>,
    sorted: Seq<DepthEntry>,
    depths: Seq<Scalar>,
    descending: bool,
)
    requires
        depths.len() <= usize::MAX,
        unsorted.len() == depths.len(),
        forall|k: int| 0 <= k < unsorted.len() ==> unsorted[k] == entry_at(depths, descending, k),
        sorted.to_multiset() == unsorted.to_multiset(),
        forall|i: int, j: int| 0 <= i < j < sorted.len() ==> key_le(sorted[i], sorted[j]),
    ensures
        sorted.len() == depths.len(),
        forall|i: int|
            0 <= i < sorted.len() ==> (#[trigger] sorted[i]).index < depths.len() && sorted[i]
                == entry_at(depths, descending, sorted[i].index as int),
        is_depth_order(Seq::new(sorted.len(), |i: int| sorted[i].index), depths, descending),
{
    broadcast use vstd::seq_lib::group_to_multiset_ensures;

    let order = Seq::new(sorted.len(), |i: int| sorted[i].index);
    assert(sorted.len() == sorted.to_multiset().len());
    assert(unsorted.len() == unsorted.to_multiset().len());
    assert forall|i: int| 0 <= i < sorted.len() implies (#[trigger] sorted[i]).index < depths.len()
        && sorted[i] == entry_at(depths, descending, sorted[i].index as int) by {
        assert(sorted.contains(sorted[i]));
        assert(unsorted.to_multiset().count(sorted[i]) > 0);
        assert(unsorted.contains(sorted[i]));
        let k = choose|k: int| 0 <= k < unsorted.len() && unsorted[k] == sorted[i];
        assert(unsorted[k] == entry_at(depths, descending, k));
    }
    assert(unsorted.no_duplicates()) by {
        assert forall|a: int, b: int|
            0 <= a < unsorted.len() && 0 <= b < unsorted.len() && a != b implies unsorted[a]
            != unsorted[b] by {
            assert(unsorted[a].index == a);
            assert(unsorted[b].index == b);
        }
    }
    unsorted.lemma_multiset_has_no_duplicates();
    sorted.lemma_multiset_has_no_duplicates_conv();
    assert forall|i: int, j: int| 0 <= i < j < order.len() implies order[i] != order[j] by {
        assert(sorted[i] != sorted[j]);
    }
    assert forall|k: usize| k < depths.len() implies order.contains(k) by {
        let e = unsorted[k as int];
        assert(unsorted.contains(e));
        assert(sorted.to_multiset().count(e) > 0);
        assert(sorted.contains(e));
        let i = choose|i: int| 0 <= i < sorted.len() && sorted[i] == e;
        assert(order[i] == k);
    }
    assert forall|i: int, j: int| 0 <= i < j < order.len() implies in_direction(
        depths[order[i] as int],
        depths[order[j] as int],
        descending,
    ) by {
        assert(key_le(sorted[i], sorted[j]));
    }
    assert forall|i: int, j: int|
        0 <= i < j < order.len() && depths[order[i] as int].order()
            == depths[order[j] as int].order() implies order[i] < order[j] by {
        assert(key_le(sorted[i], sorted[j]));
        assert(order[i] != order[j]);
    }
}

/// The order in which a buffer is to be drawn, from the projected depth of
/// each of its points: ascending depths unless `descending` is set, and
/// points of equal depth in the order in which they stood.
///
/// Depths are compared as numbers, the two zeros being equal. A pattern
/// that is no number is placed by its sign-magnitude order, beyond the
/// infinity of its sign.
pub fn depth_order(depths: &Vec<Scalar>, descending: bool) -> (order: Vec<usize>)
    ensures
        is_depth_order(order@, depths@, descending),
{
    let n = depths.len();
    let mut entries: Vec<DepthEntry> = Vec::with_capacity(n);
    let mut i: usize = 0;
    while i < n
        invariant
            n == depths.len(),
            i <= n,
            entries.len() == i,
            forall|k: int| 0 <= k < i ==> entries[k] == entry_at(depths@, descending, k),
        decreases n - i,
    {
        let key = depths[i].order_key();
        let rank: i64 = if descending {
            -key
        } else {
            key
        };
        entries.push(DepthEntry { rank, index: i });
        i += 1;
    }
    let ghost unsorted = entries@;
    par_sort_entries(&mut entries);
    proof {
        lemma_sorted_entries_give_order(unsorted, entries@, depths@, descending);
    }
    let mut order: Vec<usize> = Vec::with_capacity(n);
    let mut j: usize = 0;
    while j < n
        invariant
            n == entries.len(),
            j <= n,
            order.len() == j,
            forall|k: int| 0 <= k < j ==> order[k] == entries[k].index,
        decreases n - j,
    {
        order.push(entries[j].index);
        j += 1;
    }
    assert(order@ =~= Seq::new(entries@.len(), |i: int| entries@[i].index));
    order
}

/// Moves the points of a buffer into the order that `order` names.
pub fn rearrange<P: Copy>(points: &mut Vec<P>, order: &Vec<usize>)
    requires
        is_arrangement(order@, old(points)@.len()),
    ensures
        final(points)@ == rearranged(old(points)@, order@),
{
    let n = order.len();
    let mut sorted: Vec<P> = Vec::with_capacity(n);
    let mut i: usize = 0;
    while i < n
        invariant
            n == order.len(),
            n == points.len(),
            i <= n,
            sorted.len() == i,
            forall|k: int| 0 <= k < n ==> (#[trigger] order[k]) < n,
            forall|k: int| 0 <= k < i ==> sorted[k] == points[order[k] as int],
        decreases n - i,
    {
        sorted.push(points[order[i]]);
        i += 1;
    }
    assert(sorted@ =~= rearranged(points@, order@));
    *points = sorted;
}

/// One sort pass over a buffer: given the projected depth of each point,
/// puts the points in depth order and returns the order it chose.
///
/// Afterwards the depths along the buffer are monotonic in the configured
/// direction, for adjacent points and so for any two.
pub fn sort_by_depth<P: Copy>(points: &mut Vec<P>, depths: &Vec<Scalar>, descending: bool) -> (order:
    Vec<usize>)
    requires
        old(points)@.len() == depths@.len(),
    ensures
        is_depth_order(order@, depths@, descending),
        final(points)@ == rearranged(old(points)@, order@),
        forall|i: int|
            0 <= i && i + 1 < order@.len() ==> in_direction(
                depths@[(#[trigger] order@[i]) as int],
                depths@[order@[i + 1] as int],
                descending,
            ),
{
    let order = depth_order(depths, descending);
    rearrange(points, &order);
    order
}

} // verus!
