//! Policies that pick the number of workers and their names.
use vstd::prelude::*;

verus! {

/// A policy that turns the parallelism the platform reports (`None` where it
/// cannot tell) into a number of workers, or `None` where the policy cannot be
/// met on that report.
pub trait ThreadCount: Sized {
    /// What the policy needs of the report before it is asked.
    spec fn ready(&self, available: Option<usize>) -> bool;

    /// Whether `count` is an answer of the policy on `available`.
    spec fn resolves(&self, available: Option<usize>, count: Option<usize>) -> bool;

    /// Whether the policy cannot be asked without a report of the parallelism.
    spec fn spec_needs_report(&self) -> bool;

    /// Whether the policy cannot be asked without a report of the parallelism;
    /// a caller that has none tests this first, and fails where it holds.
    fn needs_report(&self) -> (r: bool)
        ensures
            r == self.spec_needs_report(),
    ;

    fn get(self, available: Option<usize>) -> (count: Option<usize>)
        requires
            self.ready(available),
        ensures
            self.resolves(available, count),
    ;
}

/// A fixed number of workers, whatever the platform reports.
impl ThreadCount for usize {
    open spec fn ready(&self, available: Option<usize>) -> bool {
        true
    }

    open spec fn resolves(&self, available: Option<usize>, count: Option<usize>) -> bool {
        count == Some(*self)
    }

    open spec fn spec_needs_report(&self) -> bool {
        false
    }

    fn needs_report(&self) -> (r: bool) {
        false
    }

    fn get(self, available: Option<usize>) -> (count: Option<usize>) {
        Some(self)
    }
}

/// A custom policy: any function of the report.
impl<F: FnOnce(Option<usize>) -> usize> ThreadCount for F {
    open spec fn ready(&self, available: Option<usize>) -> bool {
        call_requires(*self, (available,))
    }

    open spec fn resolves(&self, available: Option<usize>, count: Option<usize>) -> bool {
        count matches Some(c) && call_ensures(*self, (available,), c)
    }

    open spec fn spec_needs_report(&self) -> bool {
        false
    }

    fn needs_report(&self) -> (r: bool) {
        false
    }

    fn get(self, available: Option<usize>) -> (count: Option<usize>) {
        Some((self)(available))
    }
}

/// One worker per unit of reported parallelism. It depends on the report: a
/// caller without one may not ask it, and fails instead (see `needs_report`).
pub struct FullParallelism;

impl ThreadCount for FullParallelism {
    open spec fn ready(&self, available: Option<usize>) -> bool {
        available is Some
    }

    open spec fn resolves(&self, available: Option<usize>, count: Option<usize>) -> bool {
        count == available
    }

    open spec fn spec_needs_report(&self) -> bool {
        true
    }

    fn needs_report(&self) -> (r: bool) {
        true
    }

    fn get(self, available: Option<usize>) -> (count: Option<usize>) {
        available
    }
}

/// One worker fewer than the reported parallelism, leaving one for the
/// coordinating thread (none where the report is zero). Tolerates a missing
/// report: with nothing to subtract from, it asks for a single worker.
pub struct PartialParallelism;

impl ThreadCount for PartialParallelism {
    open spec fn ready(&self, available: Option<usize>) -> bool {
        true
    }

    open spec fn resolves(&self, available: Option<usize>, count: Option<usize>) -> bool {
        count == Some(
            match available {
                Some(n) => if n > 0 {
                    (n - 1) as usize
                } else {
                    0usize
                },
                None => 1usize,
            },
        )
    }

    open spec fn spec_needs_report(&self) -> bool {
        false
    }

    fn needs_report(&self) -> (r: bool) {
        false
    }

    fn get(self, available: Option<usize>) -> (count: Option<usize>) {
        match available {
            Some(n) => Some(n.saturating_sub(1)),
            None => Some(1),
        }
    }
}

/// A policy that names the worker with a given index.
pub trait ThreadName: Sized {
    /// What the policy needs before it names worker `index`.
    spec fn ready(&self, index: usize) -> bool;

    /// Whether `name` is an answer of the policy for worker `index`.
    spec fn names(&self, index: usize, name: String) -> bool;

    fn get(self, index: usize) -> (name: String)
        requires
            self.ready(index),
        ensures
            self.names(index, name),
    ;
}

/// The same name for every worker.
impl ThreadName for String {
    open spec fn ready(&self, index: usize) -> bool {
        true
    }

    open spec fn names(&self, index: usize, name: String) -> bool {
        name@ == self@
    }

    fn get(self, index: usize) -> (name: String) {
        self
    }
}

/// A custom policy: any function of the index.
impl<F: FnOnce(usize) -> String> ThreadName for F {
    open spec fn ready(&self, index: usize) -> bool {
        call_requires(*self, (index,))
    }

    open spec fn names(&self, index: usize, name: String) -> bool {
        call_ensures(*self, (index,), name)
    }

    fn get(self, index: usize) -> (name: String) {
        (self)(index)
    }
}

} // verus!
