//! Batch planner: partitions the ordered id range `[1, total]` into
//! contiguous chunks, each small enough that the auxiliary accounts it
//! touches fit within a transaction's capacity limit.

use vstd::prelude::*;

verus! {

/// One contiguous sub-range of an id sequence, inclusive on both ends.
#[derive(Clone, Copy, Debug, PartialEq, Eq, Structural)]
pub struct ChunkRange {
    pub start: u64,
    pub end: u64,
}

/// How many items fit in one chunk: `capacity / per_item_cost`, floored,
/// but never less than one item per chunk.
pub open spec fn spec_items_per_chunk(capacity: int, per_item_cost: int) -> int {
    if capacity / per_item_cost < 1 {
        1
    } else {
        capacity / per_item_cost
    }
}

/// The chunks covering `[next, total]` in ascending order, each of `size`
/// items except possibly the last.
pub open spec fn spec_chunks(next: int, total: int, size: int) -> Seq<ChunkRange>
    recommends
        1 <= next,
        1 <= size,
    decreases if next <= total { total - next + 1 } else { 0 }
{
    if next > total || size < 1 {
        Seq::empty()
    } else {
        let end = if next + size - 1 <= total {
            next + size - 1
        } else {
            total
        };
        seq![ChunkRange { start: next as u64, end: end as u64 }] + spec_chunks(
            end + 1,
            total,
            size,
        )
    }
}

/// The full plan for `[1, total]` under the given capacity limit.
pub open spec fn spec_plan(total: int, per_item_cost: int, capacity: int) -> Seq<ChunkRange> {
    spec_chunks(1, total, spec_items_per_chunk(capacity, per_item_cost))
}

/// The chunks cover exactly `[lo, hi]`: each begins where the previous one
/// ended, and the last ends at `hi`.
pub open spec fn contiguous_cover(chunks: Seq<ChunkRange>, lo: int, hi: int) -> bool
    decreases chunks.len(),
{
    if chunks.len() == 0 {
        lo > hi
    } else {
        &&& chunks[0].start == lo
        &&& chunks[0].start <= chunks[0].end <= hi
        &&& contiguous_cover(chunks.skip(1), chunks[0].end + 1, hi)
    }
}

/// Splits `[1, total]` into contiguous chunks sized for the capacity limit.
///
/// The result is pinned exactly: it is the ascending chunk sequence where
/// every chunk holds `max(1, capacity / per_item_cost)` ids except possibly
/// a shorter final chunk.
pub fn plan(total: u64, per_item_cost: u64, capacity: u64) -> (r: Vec<ChunkRange>)
    requires
        per_item_cost >= 1,
        capacity >= 1,
    ensures
        r@ == spec_plan(total as int, per_item_cost as int, capacity as int),
{
    let size: u64 = {
        let q = capacity / per_item_cost;
        if q < 1 {
            1
        } else {
            q
        }
    };
    let ghost gsize = spec_items_per_chunk(capacity as int, per_item_cost as int);
    assert(size == gsize);
    let ghost whole = spec_plan(total as int, per_item_cost as int, capacity as int);
    let mut r: Vec<ChunkRange> = Vec::new();
    let mut next: u64 = 1;
    let mut done: bool = total == 0;
    proof {
        if total == 0 {
            assert(whole =~= r@);
        }
    }
    while !done
        invariant
            1 <= size,
            size == gsize,
            whole == spec_plan(total as int, per_item_cost as int, capacity as int),
            !done ==> 1 <= next <= total,
            !done ==> whole == r@ + spec_chunks(next as int, total as int, size as int),
            done ==> whole == r@,
        decreases
                total - next,
                (if done {
                    0int
                } else {
                    1int
                }),
    {
        let end: u64 = if size - 1 <= total - next {
            next + (size - 1)
        } else {
            total
        };
        let ghost prefix = r@;
        r.push(ChunkRange { start: next, end });
        proof {
            assert(spec_chunks(next as int, total as int, size as int) == seq![
                ChunkRange { start: next, end },
            ] + spec_chunks(end as int + 1, total as int, size as int));
            assert(whole =~= r@ + spec_chunks(end as int + 1, total as int, size as int));
        }
        if end == total {
            done = true;
            proof {
                assert(spec_chunks(end as int + 1, total as int, size as int) =~= Seq::<
                    ChunkRange,
                >::empty());
                assert(whole =~= r@);
            }
        } else {
            next = end + 1;
        }
    }
    r
}

/// The chunks of `spec_chunks(next, total, size)` cover exactly `[next, total]`
/// and each holds at most `size` ids.
pub proof fn lemma_chunks_cover(next: int, total: int, size: int)
    requires
        1 <= next,
        1 <= size,
        total <= u64::MAX,
    ensures
        contiguous_cover(spec_chunks(next, total, size), next, total),
        forall|i: int|
            0 <= i < spec_chunks(next, total, size).len() ==> #[trigger] spec_chunks(
                next,
                total,
                size,
            )[i].end + 1 - spec_chunks(next, total, size)[i].start <= size,
    decreases if next <= total { total - next + 1 } else { 0 }
{
    let chunks = spec_chunks(next, total, size);
    if next > total {
        assert(chunks =~= Seq::<ChunkRange>::empty());
    } else {
        let end = if next + size - 1 <= total {
            next + size - 1
        } else {
            total
        };
        let rest = spec_chunks(end + 1, total, size);
        lemma_chunks_cover(end + 1, total, size);
        assert(chunks == seq![ChunkRange { start: next as u64, end: end as u64 }] + rest);
        assert(chunks.skip(1) =~= rest);
        assert(chunks[0].start == next && chunks[0].end == end);
        assert forall|i: int|
            0 <= i < chunks.len() implies #[trigger] chunks[i].end + 1 - chunks[i].start
            <= size by {
            if i > 0 {
                assert(chunks[i] == rest[i - 1]);
            }
        }
    }
}

/// In a contiguous cover the chunks are strictly ordered and non-overlapping.
pub proof fn lemma_cover_ordered(chunks: Seq<ChunkRange>, lo: int, hi: int)
    requires
        contiguous_cover(chunks, lo, hi),
    ensures
        forall|i: int, j: int|
            0 <= i < j < chunks.len() ==> #[trigger] chunks[i].end < #[trigger] chunks[j].start,
        forall|i: int| 0 <= i < chunks.len() ==> lo <= #[trigger] chunks[i].start <= chunks[i].end <= hi,
    decreases chunks.len(),
{
    if chunks.len() == 0 {
    } else {
        lemma_cover_ordered(chunks.skip(1), chunks[0].end + 1, hi);
        assert forall|i: int, j: int|
            0 <= i < j < chunks.len() implies #[trigger] chunks[i].end
            < #[trigger] chunks[j].start by {
            assert(chunks.skip(1)[j - 1] == chunks[j]);
            if i > 0 {
                assert(chunks.skip(1)[i - 1] == chunks[i]);
            }
        }
        assert forall|i: int|
            0 <= i < chunks.len() implies lo <= #[trigger] chunks[i].start <= chunks[i].end
            <= hi by {
            if i > 0 {
                assert(chunks.skip(1)[i - 1] == chunks[i]);
            }
        }
    }
}

/// Some chunk of the sequence contains the id `k`.
pub open spec fn in_some_chunk(chunks: Seq<ChunkRange>, k: int) -> bool {
    exists|i: int| 0 <= i < chunks.len() && #[trigger] chunks[i].start <= k <= chunks[i].end
}

/// An id is covered by some chunk of a contiguous cover exactly when it lies
/// in `[lo, hi]`.
pub proof fn lemma_cover_membership(chunks: Seq<ChunkRange>, lo: int, hi: int, k: int)
    requires
        contiguous_cover(chunks, lo, hi),
    ensures
        (lo <= k <= hi) <==> in_some_chunk(chunks, k),
    decreases chunks.len(),
{
    if chunks.len() == 0 {
    } else {
        lemma_cover_membership(chunks.skip(1), chunks[0].end + 1, hi, k);
        lemma_cover_ordered(chunks, lo, hi);
        if lo <= k <= hi {
            if k <= chunks[0].end {
                assert(chunks[0].start <= k <= chunks[0].end);
            } else {
                let i = choose|i: int|
                    0 <= i < chunks.skip(1).len() && #[trigger] chunks.skip(1)[i].start <= k
                        <= chunks.skip(1)[i].end;
                assert(chunks[i + 1].start <= k <= chunks[i + 1].end);
            }
        } else {
            if exists|i: int|
                0 <= i < chunks.len() && #[trigger] chunks[i].start <= k <= chunks[i].end {
                let i = choose|i: int|
                    0 <= i < chunks.len() && #[trigger] chunks[i].start <= k <= chunks[i].end;
                if i > 0 {
                    assert(chunks.skip(1)[i - 1].start <= k <= chunks.skip(1)[i - 1].end);
                }
            }
        }
    }
}

/// The planner's guarantees, stated over the full plan: the chunks are
/// contiguous, ordered, non-overlapping, each holds at most
/// `max(1, capacity / per_item_cost)` ids, their union is exactly
/// `{1, ..., total}`, and the plan is empty exactly when `total` is zero.
pub proof fn lemma_plan_properties(total: int, per_item_cost: int, capacity: int)
    requires
        0 <= total <= u64::MAX,
        per_item_cost >= 1,
        capacity >= 1,
    ensures
        contiguous_cover(spec_plan(total, per_item_cost, capacity), 1, total),
        forall|i: int, j: int|
            0 <= i < j < spec_plan(total, per_item_cost, capacity).len() ==> #[trigger] spec_plan(
                total,
                per_item_cost,
                capacity,
            )[i].end < #[trigger] spec_plan(total, per_item_cost, capacity)[j].start,
        forall|i: int|
            0 <= i < spec_plan(total, per_item_cost, capacity).len() ==> (1 <= #[trigger] spec_plan(
                total,
                per_item_cost,
                capacity,
            )[i].start <= spec_plan(total, per_item_cost, capacity)[i].end <= total),
        forall|i: int|
            0 <= i < spec_plan(total, per_item_cost, capacity).len() ==> #[trigger] spec_plan(
                total,
                per_item_cost,
                capacity,
            )[i].end + 1 - spec_plan(total, per_item_cost, capacity)[i].start
                <= spec_items_per_chunk(capacity, per_item_cost),
        forall|k: int|
            (1 <= k <= total) <==> #[trigger] in_some_chunk(
                spec_plan(total, per_item_cost, capacity),
                k,
            ),
        (spec_plan(total, per_item_cost, capacity).len() == 0) <==> total == 0,
{
    let size = spec_items_per_chunk(capacity, per_item_cost);
    let chunks = spec_plan(total, per_item_cost, capacity);
    lemma_chunks_cover(1, total, size);
    lemma_cover_ordered(chunks, 1, total);
    assert forall|k: int| (1 <= k <= total) <==> #[trigger] in_some_chunk(chunks, k) by {
        lemma_cover_membership(chunks, 1, total, k);
    }
}

} // verus!
