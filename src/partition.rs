//! Splitting `0..total` into `count` contiguous chunks, one per worker.
//!
//! Every chunk but the last is exactly `total / count` long; the last one also
//! takes the remainder `total % count`.
use vstd::prelude::*;

verus! {

/// The uniform chunk size.
pub open spec fn chunk_width(count: nat, total: nat) -> nat
    recommends
        count > 0,
{
    total / count
}

/// First position of worker `index`'s chunk.
pub open spec fn chunk_start(index: nat, count: nat, total: nat) -> nat
    recommends
        index < count,
{
    index * chunk_width(count, total)
}

/// One past the last position of worker `index`'s chunk: the last worker ends at `total`.
pub open spec fn chunk_end(index: nat, count: nat, total: nat) -> nat
    recommends
        index < count,
{
    if index + 1 == count {
        total
    } else {
        (index + 1) * chunk_width(count, total)
    }
}

/// Length of worker `index`'s chunk.
pub open spec fn chunk_len(index: nat, count: nat, total: nat) -> int {
    chunk_end(index, count, total) - chunk_start(index, count, total)
}

proof fn lemma_chunk_bounds(index: nat, count: nat, total: nat)
    requires
        index < count,
    ensures
        chunk_start(index, count, total) <= chunk_end(index, count, total) <= total,
        index + 1 < count ==> chunk_end(index, count, total) == chunk_start(index + 1, count, total),
        chunk_len(index, count, total) == if index + 1 == count {
            total / count + total % count
        } else {
            total / count
        },
{
    let w = total / count;
    assert(total == count * w + total % count) by (nonlinear_arith)
        requires
            count > 0,
            w == total / count,
    ;
    assert((index + 1) * w <= count * w) by (nonlinear_arith)
        requires
            index + 1 <= count,
    ;
    assert(index * w <= (index + 1) * w) by (nonlinear_arith);
    assert((index + 1) * w == index * w + w) by (nonlinear_arith);
    if index + 1 == count {
        assert(index * w + w == count * w);
    }
}

/// The worker whose chunk holds position `x` of `0..total`.
pub open spec fn chunk_owner(x: nat, count: nat, total: nat) -> nat {
    let w = chunk_width(count, total);
    if w == 0 || x / w >= count {
        (count - 1) as nat
    } else {
        x / w
    }
}

/// For every positive `count`, the chunks of workers `0..count` are pairwise
/// disjoint and lie within `0..total`, and every position of `0..total` lies in
/// the chunk of exactly one worker.
pub proof fn lemma_chunks_partition(count: nat, total: nat)
    requires
        count > 0,
    ensures
        forall|i: nat| #![trigger chunk_end(i, count, total)]
            i < count ==> chunk_start(i, count, total) <= chunk_end(i, count, total) <= total,
        forall|i: nat, j: nat| #![trigger chunk_end(i, count, total), chunk_start(j, count, total)]
            i < j < count ==> chunk_end(i, count, total) <= chunk_start(j, count, total),
        forall|x: nat| #![trigger chunk_owner(x, count, total)]
            x < total ==> {
                let o = chunk_owner(x, count, total);
                &&& o < count
                &&& chunk_start(o, count, total) <= x < chunk_end(o, count, total)
            },
        forall|x: nat, i: nat| #![trigger chunk_owner(x, count, total), chunk_end(i, count, total)]
            i < count && chunk_start(i, count, total) <= x < chunk_end(i, count, total) ==> i
                == chunk_owner(x, count, total),
{
    assert forall|i: nat| #![trigger chunk_end(i, count, total)] i < count implies chunk_start(
        i,
        count,
        total,
    ) <= chunk_end(i, count, total) <= total by {
        lemma_chunk_bounds(i, count, total);
    }
    let w = total / count;
    assert forall|i: nat, j: nat| #![trigger chunk_end(i, count, total), chunk_start(j, count, total)]
        i < j < count implies chunk_end(i, count, total) <= chunk_start(j, count, total) by {
        lemma_chunk_bounds(i, count, total);
        assert((i + 1) * w <= j * w) by (nonlinear_arith)
            requires
                i + 1 <= j,
        ;
    }
    let last = (count - 1) as nat;
    lemma_chunk_bounds(last, count, total);
    assert forall|x: nat| #![trigger chunk_owner(x, count, total)] x < total implies {
        let o = chunk_owner(x, count, total);
        &&& o < count
        &&& chunk_start(o, count, total) <= x < chunk_end(o, count, total)
    } by {
        if w == 0 {
            assert(last * w == 0) by (nonlinear_arith)
                requires
                    w == 0,
            ;
        } else {
            let q = x / w;
            assert(q * w <= x < q * w + w) by (nonlinear_arith)
                requires
                    w > 0,
                    q == x / w,
            ;
            if q < last {
                lemma_chunk_bounds(q, count, total);
                assert((q + 1) * w == q * w + w) by (nonlinear_arith);
            } else {
                assert(last * w <= q * w) by (nonlinear_arith)
                    requires
                        last <= q,
                ;
            }
        }
    }
    assert forall|x: nat, i: nat| #![trigger chunk_owner(x, count, total), chunk_end(i, count, total)]
        i < count && chunk_start(i, count, total) <= x < chunk_end(i, count, total) implies i
        == chunk_owner(x, count, total) by {
        let o = chunk_owner(x, count, total);
        assert(o < count && chunk_start(o, count, total) <= x < chunk_end(o, count, total));
        if i < o {
            lemma_chunk_bounds(i, count, total);
            assert((i + 1) * w <= o * w) by (nonlinear_arith)
                requires
                    i + 1 <= o,
            ;
        } else if o < i {
            lemma_chunk_bounds(o, count, total);
            assert((o + 1) * w <= i * w) by (nonlinear_arith)
                requires
                    o + 1 <= i,
            ;
        }
    }
}

/// Every chunk but the last is `total / count` long; the last one is
/// `total / count + total % count` long.
pub proof fn lemma_chunk_lengths(count: nat, total: nat)
    requires
        count > 0,
    ensures
        forall|i: nat| #![trigger chunk_len(i, count, total)]
            i + 1 < count ==> chunk_len(i, count, total) == total / count,
        chunk_len((count - 1) as nat, count, total) == total / count + total % count,
{
    assert forall|i: nat| #![trigger chunk_len(i, count, total)] i + 1 < count implies chunk_len(
        i,
        count,
        total,
    ) == total / count by {
        lemma_chunk_bounds(i, count, total);
    }
    lemma_chunk_bounds((count - 1) as nat, count, total);
}

/// The chunk `start..end` of worker `index` out of `count` over `0..total`.
pub fn chunk_bounds(index: usize, count: usize, total: usize) -> (r: (usize, usize))
    requires
        index < count,
    ensures
        r.0 == chunk_start(index as nat, count as nat, total as nat),
        r.1 == chunk_end(index as nat, count as nat, total as nat),
        r.0 <= r.1 <= total,
{
    proof {
        lemma_chunk_bounds(index as nat, count as nat, total as nat);
    }
    let width = total / count;
    let start = index * width;
    if index + 1 == count {
        (start, total)
    } else {
        (start, (index + 1) * width)
    }
}

/// The chunk of worker `index` out of `count` over `0..total`, or `None` where
/// there is no such worker (`count` is zero, or `index` is not below it).
pub fn chunk_range(index: usize, count: usize, total: usize) -> (r: Option<core::ops::Range<usize>>)
    ensures
        r is Some <==> index < count,
        r matches Some(rg) ==> rg.start == chunk_start(index as nat, count as nat, total as nat)
            && rg.end == chunk_end(index as nat, count as nat, total as nat) && rg.start <= rg.end
            <= total,
{
    if index < count {
        let (start, end) = chunk_bounds(index, count, total);
        Some(start..end)
    } else {
        None
    }
}

} // verus!
