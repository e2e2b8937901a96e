//! The context handed to each worker.
use vstd::prelude::*;
use std::sync::Arc;
use std::sync::mpsc::{SendError, Sender};
use crate::partition::{chunk_bounds, chunk_end, chunk_start};
use crate::shared::{post, share};
use crate::signal::RunState;
use crate::split::{region_of, split_region, split_region_mut, with_region, SubSlice, SubSliceMut};

verus! {

/// What one worker knows of the pool: its index among `count` workers, its
/// name, the run-state signal, a sender to the coordinator, the shared payload
/// and the interval at which the pool expects a polling worker to look at the
/// signal.
#[verifier::reject_recursive_types(M)]
pub struct ThreadUtilities<D, M = ()> {
    index: usize,
    max_count: usize,
    name: String,
    check: Arc<RunState>,
    message: Sender<M>,
    arc: Arc<D>,
    check_sleep: u64,
}

impl<D, M> ThreadUtilities<D, M> {
    #[verifier::type_invariant]
    spec fn index_below_count(&self) -> bool {
        self.index < self.max_count
    }

    /// This worker's index, in `0..count`.
    pub closed spec fn spec_index(&self) -> nat {
        self.index as nat
    }

    /// The number of workers in the pool.
    pub closed spec fn spec_count(&self) -> nat {
        self.max_count as nat
    }

    pub closed spec fn spec_name(&self) -> Seq<char> {
        self.name@
    }

    /// The shared payload.
    pub closed spec fn spec_data(&self) -> D {
        *self.arc
    }

    /// The polling interval, in milliseconds.
    pub closed spec fn spec_check_sleep(&self) -> u64 {
        self.check_sleep
    }

    /// The context of worker `index` out of `count`.
    pub(crate) fn new(
        index: usize,
        count: usize,
        name: String,
        check: Arc<RunState>,
        message: Sender<M>,
        arc: Arc<D>,
        check_sleep: u64,
    ) -> (r: Self)
        requires
            index < count,
        ensures
            r.spec_index() == index,
            r.spec_count() == count,
            r.spec_name() == name@,
            r.spec_data() == *arc,
            r.spec_check_sleep() == check_sleep,
    {
        ThreadUtilities { index, max_count: count, name, check, message, arc, check_sleep }
    }

    /// This worker's index, in `0..count`.
    pub fn index(&self) -> (r: usize)
        ensures
            r == self.spec_index(),
            r < self.spec_count(),
    {
        proof {
            use_type_invariant(self);
        }
        self.index
    }

    /// The number of workers in the pool.
    pub fn count(&self) -> (r: usize)
        ensures
            r == self.spec_count(),
            r > 0,
    {
        proof {
            use_type_invariant(self);
        }
        self.max_count
    }

    /// The interval, in milliseconds, at which the pool expects a worker that
    /// polls the signal to look at it. It is advisory only: nothing in the pool
    /// sleeps by it, and a paused worker inside `check` does not poll, but is
    /// woken by the change of the signal.
    pub fn sleep_interval(&self) -> (r: u64)
        ensures
            r == self.spec_check_sleep(),
    {
        self.check_sleep
    }

    /// This worker's name.
    pub fn name(&self) -> (r: &String)
        ensures
            r@ == self.spec_name(),
    {
        &self.name
    }

    /// Reads the run-state signal and answers by `answer_check`: `true` on
    /// `Stop`, `false` on `Unset` and `Play`; on `Pause` it blocks until the signal
    /// changes and answers for the signal that ended the pause (see
    /// `RunState::check`).
    pub fn check(&self) -> bool {
        self.check.check()
    }

    /// Posts `message` to the coordinator. Fails, handing the message back, once
    /// the coordinator's receiving end is gone.
    pub fn send(&self, message: M) -> (r: Result<(), SendError<M>>)
        ensures
            r matches Err(e) ==> e.0 == message,
    {
        post(&self.message, message)
    }

    /// This worker's chunk of `0..total`.
    pub fn range(&self, total: usize) -> (r: core::ops::Range<usize>)
        ensures
            r.start == chunk_start(self.spec_index(), self.spec_count(), total as nat),
            r.end == chunk_end(self.spec_index(), self.spec_count(), total as nat),
            r.start <= r.end <= total,
    {
        proof {
            use_type_invariant(self);
        }
        let (start, end) = chunk_bounds(self.index, self.max_count, total);
        start..end
    }

    /// This worker's chunk of `slice`, read-only.
    pub fn split_slice<'s, S>(&self, slice: &'s [S]) -> (r: SubSlice<'s, S>)
        ensures
            r@ == region_of(slice@, self.spec_index(), self.spec_count()),
            r.width == slice@.len() / self.spec_count(),
    {
        proof {
            use_type_invariant(self);
        }
        split_region(slice, self.index, self.max_count)
    }

    /// This worker's chunk of `slice`, mutable; the rest of `slice` is left as it was.
    pub fn split_slice_mut<'s, S>(&self, slice: &'s mut [S]) -> (r: SubSliceMut<'s, S>)
        ensures
            r@ == region_of(old(slice)@, self.spec_index(), self.spec_count()),
            r.width == old(slice)@.len() / self.spec_count(),
            final(slice)@ == with_region(
                old(slice)@,
                self.spec_index(),
                self.spec_count(),
                final(r.slice)@,
            ),
    {
        proof {
            use_type_invariant(self);
        }
        split_region_mut(slice, self.index, self.max_count)
    }

    /// The shared payload.
    pub fn data(&self) -> (r: &D)
        ensures
            *r == self.spec_data(),
    {
        &*self.arc
    }

    /// Another handle to the shared payload.
    pub fn arc(&self) -> (r: Arc<D>)
        ensures
            *r == self.spec_data(),
    {
        share(&self.arc)
    }
}

} // verus!
