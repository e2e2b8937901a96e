//! The coordinator's side of a pool: the workers' handles, the run-state
//! signal, the message channel, the shared payload and the workers' names.
//! What a handle is, and how a worker is started and joined, is left to the
//! caller: the pool only records the handles in order of worker index.
use vstd::prelude::*;
use std::sync::Arc;
use std::sync::mpsc::{Receiver, Sender};
use crate::shared::{clone_sender, open_channel, share, unshare};
use crate::signal::{RunState, Signal};
use crate::threadutilities::ThreadUtilities;
use crate::builder::{default_name_of, default_names};

verus! {

/// A pool of `max_threads` workers, as the coordinator holds it: the handles
/// of the workers started so far (of type `H`), the run-state signal, the
/// message channel, the shared payload and the workers' names.
#[verifier::reject_recursive_types(M)]
pub struct ThreadLake<D, H, M = ()> {
    max_threads: usize,
    handles: Vec<H>,
    signal: Arc<RunState>,
    receiver: Receiver<M>,
    sender: Sender<M>,
    data: Arc<D>,
    names: Vec<String>,
    check_sleep: u64,
}

impl<D, H, M> ThreadLake<D, H, M> {
    #[verifier::type_invariant]
    spec fn well_formed(&self) -> bool {
        &&& self.names@.len() == self.max_threads
        &&& self.handles@.len() <= self.max_threads
    }

    /// The handles of the workers started so far, in order of index.
    pub closed spec fn spec_handles(&self) -> Seq<H> {
        self.handles@
    }

    pub closed spec fn spec_max_threads(&self) -> nat {
        self.max_threads as nat
    }

    /// The name of worker `index`.
    pub closed spec fn spec_name(&self, index: int) -> Seq<char> {
        self.names@[index]@
    }

    /// The shared payload.
    pub closed spec fn spec_data(&self) -> D {
        *self.data
    }

    /// The polling interval handed to workers, in milliseconds.
    pub closed spec fn spec_check_sleep(&self) -> u64 {
        self.check_sleep
    }

    /// A pool of `max_threads` workers sharing `data`, worker `i` named `names[i]`
    /// or, where `names` is empty, `"ThreadLake thread i"`,
    /// none started yet, with the polling interval `check_sleep` for its workers.
    /// The signal starts as `Signal::Unset`.
    pub fn with_data(max_threads: usize, data: D, names: Vec<String>, check_sleep: u64) -> (r: Self)
        requires
            names@.len() == 0 || names@.len() == max_threads,
        ensures
            r.spec_max_threads() == max_threads,
            r.spec_data() == data,
            r.spec_handles().len() == 0,
            r.spec_check_sleep() == check_sleep,
            forall|i: int|
                0 <= i < max_threads ==> r.spec_name(i) == if names@.len() == 0 {
                    default_name_of(i as nat)
                } else {
                    names@[i]@
                },
    {
        let names = if names.len() == 0 {
            default_names(max_threads)
        } else {
            names
        };
        let (sender, receiver) = open_channel();
        ThreadLake {
            max_threads,
            handles: Vec::new(),
            signal: Arc::new(RunState::new()),
            receiver,
            sender,
            data: Arc::new(data),
            names,
            check_sleep,
        }
    }

    /// The context of worker `index`: its index, the pool's size, its name, the
    /// shared signal, a sender into the pool's channel and the shared payload.
    pub fn worker(&self, index: usize) -> (r: ThreadUtilities<D, M>)
        requires
            index < self.spec_max_threads(),
        ensures
            r.spec_index() == index,
            r.spec_count() == self.spec_max_threads(),
            r.spec_name() == self.spec_name(index as int),
            r.spec_data() == self.spec_data(),
            r.spec_check_sleep() == self.spec_check_sleep(),
    {
        proof {
            use_type_invariant(self);
        }
        ThreadUtilities::new(
            index,
            self.max_threads,
            self.names[index].clone(),
            share(&self.signal),
            clone_sender(&self.sender),
            share(&self.data),
            self.check_sleep,
        )
    }

    /// Whether every worker has been started.
    pub fn is_full(&self) -> (r: bool)
        ensures
            r == (self.spec_handles().len() == self.spec_max_threads()),
    {
        proof {
            use_type_invariant(self);
        }
        self.handles.len() == self.max_threads
    }

    /// The context for the next worker to start: the one whose index is the
    /// number of workers started so far.
    pub fn next_worker(&self) -> (r: ThreadUtilities<D, M>)
        requires
            self.spec_handles().len() < self.spec_max_threads(),
        ensures
            r.spec_index() == self.spec_handles().len(),
            r.spec_count() == self.spec_max_threads(),
            r.spec_name() == self.spec_name(self.spec_handles().len() as int),
            r.spec_data() == self.spec_data(),
            r.spec_check_sleep() == self.spec_check_sleep(),
    {
        self.worker(self.handles.len())
    }

    /// The pool with the handle of the worker that `next_worker` gave the
    /// context for recorded.
    pub fn with_handle(self, handle: H) -> (r: Self)
        requires
            self.spec_handles().len() < self.spec_max_threads(),
        ensures
            r.spec_handles() == self.spec_handles().push(handle),
            r.spec_max_threads() == self.spec_max_threads(),
            r.spec_data() == self.spec_data(),
            r.spec_check_sleep() == self.spec_check_sleep(),
            forall|i: int| #![trigger r.spec_name(i)]
                0 <= i < self.spec_max_threads() ==> r.spec_name(i) == self.spec_name(i),
    {
        proof {
            use_type_invariant(&self);
        }
        let ThreadLake { max_threads, handles, signal, receiver, sender, data, names, check_sleep } =
            self;
        let mut handles = handles;
        handles.push(handle);
        ThreadLake { max_threads, handles, signal, receiver, sender, data, names, check_sleep }
    }

    /// The handle of worker `index`, which has been started.
    pub fn handle(&self, index: usize) -> (r: &H)
        requires
            index < self.spec_handles().len(),
        ensures
            *r == self.spec_handles()[index as int],
    {
        &self.handles[index]
    }

    /// Number of workers started so far.
    pub fn started(&self) -> (r: usize)
        ensures
            r == self.spec_handles().len(),
    {
        self.handles.len()
    }

    /// Takes the pool apart for joining: the workers' handles, in order of index,
    /// and a handle to the shared payload. The pool's own handle to the payload,
    /// its signal and its channel are dropped.
    pub fn into_handles(self) -> (r: (Vec<H>, Arc<D>))
        ensures
            r.0@ == self.spec_handles(),
            *r.1 == self.spec_data(),
    {
        let data = share(&self.data);
        (self.handles, data)
    }

    /// Tells every worker to continue; only workers that call `check` see it.
    pub fn play(&self) {
        self.signal.set(Signal::Play);
    }

    /// Tells every worker to stop; only workers that call `check` see it.
    pub fn stop(&self) {
        self.signal.set(Signal::Stop);
    }

    /// Tells every worker to pause; only workers that call `check` see it.
    pub fn pause(&self) {
        self.signal.set(Signal::Pause);
    }

    /// The signal as it stands now.
    pub fn signal(&self) -> Signal {
        self.signal.read()
    }

    /// The polling interval handed to workers, in milliseconds.
    pub fn sleep_interval(&self) -> (r: u64)
        ensures
            r == self.spec_check_sleep(),
    {
        self.check_sleep
    }

    /// The number of workers.
    pub fn max_threads(&self) -> (r: usize)
        ensures
            r == self.spec_max_threads(),
    {
        self.max_threads
    }

    /// The name of worker `index`.
    pub fn name(&self, index: usize) -> (r: &String)
        requires
            index < self.spec_max_threads(),
        ensures
            r@ == self.spec_name(index as int),
    {
        proof {
            use_type_invariant(self);
        }
        &self.names[index]
    }

    /// The shared payload.
    pub fn data(&self) -> (r: &D)
        ensures
            *r == self.spec_data(),
    {
        &*self.data
    }

    /// Another handle to the shared payload.
    pub fn arc(&self) -> (r: Arc<D>)
        ensures
            *r == self.spec_data(),
    {
        share(&self.data)
    }

    /// The receiving end of the messages that workers send.
    pub fn receiver(&self) -> &Receiver<M> {
        &self.receiver
    }
}

/// The payload behind `data`, where `data` is its last handle; `None` where
/// another handle still lives.
pub fn take_shared<D>(data: Arc<D>) -> (r: Option<D>)
    ensures
        r matches Some(d) ==> d == *data,
{
    match unshare(data) {
        Ok(d) => Some(d),
        Err(_) => None,
    }
}

} // verus!
