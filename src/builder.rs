//! Configuration of a pool before it starts: how many workers, their names and
//! the shared payload.
use vstd::prelude::*;
use crate::threadlake::ThreadLake;
use crate::traits::{ThreadCount, ThreadName};
use vstd::string::StringExecFns;

verus! {

/// The polling interval, in milliseconds, that a new builder hands to workers.
pub const DEFAULT_CHECK_SLEEP_MS: u64 = 10;

/// The decimal digits of `n`, most significant first.
pub open spec fn decimal(n: nat) -> Seq<char>
    decreases n,
{
    let digit = seq!['0', '1', '2', '3', '4', '5', '6', '7', '8', '9'][(n % 10) as int];
    if n < 10 {
        seq![digit]
    } else {
        decimal(n / 10).push(digit)
    }
}

/// What every default worker name starts with.
pub const DEFAULT_NAME_PREFIX: &'static str = "ThreadLake thread ";

/// The name of worker `index` where none was set.
pub open spec fn default_name_of(index: nat) -> Seq<char> {
    DEFAULT_NAME_PREFIX@ + decimal(index)
}

/// Relies on `ToString::to_string` for `usize`, which goes through its `Display`:
/// the number in decimal, without sign or padding.
#[verifier::external_body]
fn decimal_string(n: usize) -> (r: String)
    ensures
        r@ == decimal(n as nat),
{
    n.to_string()
}

/// The name of worker `index` where none was set.
pub fn default_name(index: usize) -> (r: String)
    ensures
        r@ == default_name_of(index as nat),
{
    let digits = decimal_string(index);
    DEFAULT_NAME_PREFIX.to_owned().concat(digits.as_str())
}

/// The default names of workers `0..count`.
pub fn default_names(count: usize) -> (r: Vec<String>)
    ensures
        r@.len() == count,
        forall|i: int| 0 <= i < count ==> r@[i]@ == default_name_of(i as nat),
{
    let mut names: Vec<String> = Vec::new();
    let mut i: usize = 0;
    while i < count
        invariant
            i <= count,
            names@.len() == i,
            forall|j: int| 0 <= j < i ==> names@[j]@ == default_name_of(j as nat),
        decreases count - i,
    {
        names.push(default_name(i));
        i = i + 1;
    }
    names
}

/// Configuration of a pool: the worker count, the workers' names (none set yet,
/// or one per worker), the shared payload and a polling interval in milliseconds.
pub struct Builder<D> {
    thread_count: usize,
    strings: Vec<String>,
    data: D,
    check_sleep: u64,
}

impl Builder<()> {
    /// A builder for a pool without payload, its worker count picked by
    /// `thread_count` from the reported parallelism `available`. `None` where the
    /// policy cannot be met on that report.
    pub fn new<F: ThreadCount>(thread_count: F, available: Option<usize>) -> (r: Option<Self>)
        requires
            thread_count.ready(available),
        ensures
            thread_count.resolves(available, Builder::count_of(r)),
            r matches Some(b) ==> b.spec_names().len() == 0 && b.spec_check_sleep()
                == DEFAULT_CHECK_SLEEP_MS,
    {
        Self::with_data(thread_count, (), available)
    }
}

impl<D> Builder<D> {
    #[verifier::type_invariant]
    spec fn names_unset_or_complete(&self) -> bool {
        self.strings@.len() == 0 || self.strings@.len() == self.thread_count
    }

    pub closed spec fn spec_thread_count(&self) -> usize {
        self.thread_count
    }

    /// The names set so far: none, or one per worker.
    pub closed spec fn spec_names(&self) -> Seq<Seq<char>> {
        self.strings@.map_values(|s: String| s@)
    }

    /// The names set so far, as strings.
    pub closed spec fn spec_strings(&self) -> Seq<String> {
        self.strings@
    }

    pub closed spec fn spec_data(&self) -> D {
        self.data
    }

    pub closed spec fn spec_check_sleep(&self) -> u64 {
        self.check_sleep
    }

    /// The worker count of a builder, if there is one.
    pub open spec fn count_of(b: Option<Self>) -> Option<usize> {
        match b {
            Some(b) => Some(b.spec_thread_count()),
            None => None,
        }
    }

    /// A builder for a pool sharing `data`, its worker count picked by
    /// `thread_count` from the reported parallelism `available`. `None` where the
    /// policy cannot be met on that report.
    pub fn with_data<F: ThreadCount>(thread_count: F, data: D, available: Option<usize>) -> (r:
        Option<Self>)
        requires
            thread_count.ready(available),
        ensures
            thread_count.resolves(available, Self::count_of(r)),
            r matches Some(b) ==> b.spec_names().len() == 0 && b.spec_data() == data
                && b.spec_check_sleep() == DEFAULT_CHECK_SLEEP_MS,
    {
        match thread_count.get(available) {
            Some(count) => Some(
                Builder {
                    thread_count: count,
                    strings: Vec::new(),
                    data,
                    check_sleep: DEFAULT_CHECK_SLEEP_MS,
                },
            ),
            None => None,
        }
    }

    /// Names worker `i` by `names` for every `i` below the worker count. Names
    /// set before are kept: the first call that sets names decides them.
    pub fn names<F: ThreadName + Copy>(self, names: F) -> (r: Self)
        requires
            self.spec_strings().len() == 0 ==> forall|i: usize|
                i < self.spec_thread_count() ==> names.ready(i),
        ensures
            r.spec_thread_count() == self.spec_thread_count(),
            r.spec_data() == self.spec_data(),
            r.spec_check_sleep() == self.spec_check_sleep(),
            self.spec_strings().len() != 0 ==> r.spec_strings() == self.spec_strings(),
            self.spec_strings().len() == 0 ==> r.spec_strings().len() == self.spec_thread_count(),
            self.spec_strings().len() == 0 ==> forall|i: int|
                0 <= i < self.spec_thread_count() ==> names.names(
                    i as usize,
                    #[trigger] r.spec_strings()[i],
                ),
    {
        if self.strings.len() != 0 {
            return self;
        }
        let mut strings: Vec<String> = Vec::new();
        let mut i: usize = 0;
        while i < self.thread_count
            invariant
                i <= self.thread_count,
                strings@.len() == i,
                forall|i: usize| i < self.spec_thread_count() ==> names.ready(i),
                forall|j: int| 0 <= j < i ==> names.names(j as usize, #[trigger] strings@[j]),
            decreases self.thread_count - i,
        {
            strings.push(names.get(i));
            i = i + 1;
        }
        Builder { thread_count: self.thread_count, strings, data: self.data, check_sleep: self.check_sleep }
    }

    /// Sets the polling interval, in milliseconds.
    pub fn check_sleep(self, millis: u64) -> (r: Self)
        ensures
            r.spec_thread_count() == self.spec_thread_count(),
            r.spec_names() == self.spec_names(),
            r.spec_data() == self.spec_data(),
            r.spec_check_sleep() == millis,
    {
        proof {
            use_type_invariant(&self);
        }
        Builder { thread_count: self.thread_count, strings: self.strings, data: self.data, check_sleep: millis }
    }

    /// The worker count.
    pub fn thread_count(&self) -> (r: usize)
        ensures
            r == self.spec_thread_count(),
    {
        self.thread_count
    }

    /// The polling interval, in milliseconds.
    pub fn sleep_interval(&self) -> (r: u64)
        ensures
            r == self.spec_check_sleep(),
    {
        self.check_sleep
    }

    /// The coordinator's side of the configured pool: worker `i` is named as
    /// set, or `"ThreadLake thread i"` where no names were set.
    pub fn build<H, M>(self) -> (r: ThreadLake<D, H, M>)
        ensures
            r.spec_max_threads() == self.spec_thread_count(),
            r.spec_data() == self.spec_data(),
            r.spec_handles().len() == 0,
            r.spec_check_sleep() == self.spec_check_sleep(),
            forall|i: int| 0 <= i < self.spec_thread_count() ==> r.spec_name(i) == if self.spec_names().len() == 0 {
                default_name_of(i as nat)
            } else {
                self.spec_names()[i]
            },
    {
        proof {
            use_type_invariant(&self);
        }
        ThreadLake::with_data(self.thread_count, self.data, self.strings, self.check_sleep)
    }
}

} // verus!
