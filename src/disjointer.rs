//! A vector that is handed out to workers in disjoint mutable chunks.
use vstd::prelude::*;
use crate::partition::{chunk_end, chunk_len, chunk_start, chunk_width, lemma_chunks_partition, lemma_chunk_lengths};
use crate::split::{region_of, with_region, SubSliceMut};
use crate::threadutilities::ThreadUtilities;
use crate::threadlake::ThreadLake;

verus! {

/// Owns a vector and lends out the chunk of one worker at a time. Chunks of
/// different workers of one pool never overlap, and writing through one chunk
/// leaves the rest of the vector as it was.
pub struct Disjointer<T> {
    vector: Vec<T>,
}

impl<T> View for Disjointer<T> {
    type V = Seq<T>;

    closed spec fn view(&self) -> Seq<T> {
        self.vector@
    }
}

impl<T> Disjointer<T> {
    /// Wraps `vector`.
    pub fn new(vector: Vec<T>) -> (r: Self)
        ensures
            r@ == vector@,
    {
        Disjointer { vector }
    }

    /// The chunk of the worker that `utility` belongs to, mutable.
    pub fn piece<D, M>(&mut self, utility: &ThreadUtilities<D, M>) -> (r: SubSliceMut<'_, T>)
        ensures
            r@ == region_of(old(self)@, utility.spec_index(), utility.spec_count()),
            r.width == old(self)@.len() / utility.spec_count(),
            final(self)@ == with_region(
                old(self)@,
                utility.spec_index(),
                utility.spec_count(),
                final(r.slice)@,
            ),
    {
        utility.split_slice_mut(self.vector.as_mut_slice())
    }

    /// Number of elements.
    pub fn len(&self) -> (r: usize)
        ensures
            r == self@.len(),
    {
        self.vector.len()
    }

    /// Unwraps the vector.
    pub fn take(self) -> (r: Vec<T>)
        ensures
            r@ == self@,
    {
        self.vector
    }
}

/// What worker `index` out of `count` writes over its chunk of `0..total` when
/// it stores at each local position `local` the value `local + width * index`.
pub open spec fn translated_chunk(index: nat, count: nat, total: nat) -> Seq<int> {
    Seq::new(
        chunk_len(index, count, total) as nat,
        |local: int| local + chunk_width(count, total) * index,
    )
}

/// `s` after workers `0..k` out of `count` have each written their
/// `translated_chunk` over their own chunk, one after another.
pub open spec fn translated_by_workers(s: Seq<int>, k: nat, count: nat) -> Seq<int>
    decreases k,
{
    if k == 0 {
        s
    } else {
        let before = translated_by_workers(s, (k - 1) as nat, count);
        with_region(before, (k - 1) as nat, count, translated_chunk((k - 1) as nat, count, s.len()))
    }
}

proof fn lemma_translated_prefix(s: Seq<int>, k: nat, count: nat)
    requires
        0 < count,
        k <= count,
    ensures
        translated_by_workers(s, k, count).len() == s.len(),
        forall|i: int|
            0 <= i < s.len() ==> #[trigger] translated_by_workers(s, k, count)[i] == if k > 0
                && i < chunk_end((k - 1) as nat, count, s.len()) {
                i
            } else {
                s[i]
            },
    decreases k,
{
    let total = s.len();
    lemma_chunks_partition(count, total);
    lemma_chunk_lengths(count, total);
    if k > 0 {
        let j = (k - 1) as nat;
        lemma_translated_prefix(s, j, count);
        let before = translated_by_workers(s, j, count);
        let start = chunk_start(j, count, total);
        let end = chunk_end(j, count, total);
        assert(chunk_end(j, count, total) <= total);
        if j > 0 {
            // the previous worker's chunk ends where this one starts
            assert(chunk_end((j - 1) as nat, count, total) == j * chunk_width(count, total));
        }
        let after = translated_by_workers(s, k, count);
        assert(after == with_region(before, j, count, translated_chunk(j, count, total)));
        assert(after.len() == total);
        assert forall|i: int| 0 <= i < total implies #[trigger] after[i] == if i < end {
            i
        } else {
            s[i]
        } by {
            if i < start {
                assert(after[i] == before[i]);
            } else if i < end {
                assert(after[i] == translated_chunk(j, count, total)[i - start]);
            } else {
                assert(after[i] == before[i]);
            }
        }
    }
}

/// Round trip: when every worker of a pool of `count` writes `local + width * index`
/// at each local position of its own chunk, the whole sequence afterwards holds
/// at every position `i` the value `i`.
pub proof fn lemma_translated_round_trip(s: Seq<int>, count: nat)
    requires
        count > 0,
    ensures
        translated_by_workers(s, count, count) =~= Seq::new(s.len(), |i: int| i),
{
    lemma_translated_prefix(s, count, count);
    lemma_chunks_partition(count, s.len());
    assert(chunk_end((count - 1) as nat, count, s.len()) == s.len());
}

/// The values of `s` as integers.
pub open spec fn as_ints(s: Seq<usize>) -> Seq<int> {
    s.map_values(|v: usize| v as int)
}

/// Writes `local + offset` at each local position of `p`.
fn fill_from(p: &mut SubSliceMut<'_, usize>, offset: usize)
    requires
        offset + old(p)@.len() <= usize::MAX,
    ensures
        final(p)@ =~= Seq::new(old(p)@.len(), |k: int| (k + offset) as usize),
        final(final(p).slice)@ == final(old(p).slice)@,
{
    let n = p.len();
    let mut j: usize = 0;
    while j < n
        invariant
            j <= n,
            n == p@.len(),
            n == old(p)@.len(),
            offset + n <= usize::MAX,
            forall|k: int| 0 <= k < j ==> p@[k] == k + offset,
            final(p.slice)@ == final(old(p).slice)@,
        decreases n - j,
    {
        p.set(j, j + offset);
        j = j + 1;
    }
}

/// Has every worker of `lake`, one after another, take its piece of `d` and
/// write at each local position `local` the value `local + width * index`.
/// Afterwards every position of `d` holds its own index.
pub fn number_by_pieces<D, H, M>(lake: &ThreadLake<D, H, M>, d: &mut Disjointer<usize>)
    requires
        lake.spec_max_threads() > 0,
    ensures
        final(d)@ =~= Seq::new(old(d)@.len(), |i: int| i as usize),
{
    let ghost start = as_ints(d@);
    let count = lake.max_threads();
    let len = d.len();
    let ghost total = len as nat;
    let mut w: usize = 0;
    while w < count
        invariant
            count == lake.spec_max_threads(),
            0 < count,
            w <= count,
            d@.len() == total,
            total == len,
            start.len() == total,
            as_ints(d@) =~= translated_by_workers(start, w as nat, count as nat),
        decreases count - w,
    {
        let utility = lake.worker(w);
        {
            let mut p = d.piece(&utility);
            proof {
                lemma_chunks_partition(count as nat, total);
                lemma_chunk_lengths(count as nat, total);
                let q = total / (count as nat);
                assert(q * count <= total) by (nonlinear_arith)
                    requires
                        count > 0,
                        q == total / (count as nat),
                ;
                assert(p.width == q);
                assert(p@.len() == chunk_end(w as nat, count as nat, total) - chunk_start(
                    w as nat,
                    count as nat,
                    total,
                ));
                assert(chunk_start(w as nat, count as nat, total) == w * q);
            }
            let width = p.width();
            proof {
                let q = total / (count as nat);
                assert(width * w <= total) by (nonlinear_arith)
                    requires
                        width == q,
                        q * count <= total,
                        w < count,
                ;
                assert(width * w == chunk_start(w as nat, count as nat, total)) by (nonlinear_arith)
                    requires
                        width == q,
                        chunk_start(w as nat, count as nat, total) == w * q,
                ;
            }
            let offset = width * w;
            fill_from(&mut p, offset);
        }
        proof {
            assert(as_ints(d@) =~= translated_by_workers(start, (w + 1) as nat, count as nat));
        }
        w = w + 1;
    }
    proof {
        lemma_translated_round_trip(start, count as nat);
        assert forall|i: int| 0 <= i < total implies d@[i] == i as usize by {
            assert(as_ints(d@)[i] == i);
        }
    }
}

} // verus!
