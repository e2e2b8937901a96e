//! The run-state signal that the coordinator sets and every worker reads.
use vstd::prelude::*;
use std::sync::{Condvar, Mutex, MutexGuard};

verus! {

/// The coordinator's standing instruction to its workers.
#[derive(Clone, Copy, Debug, PartialEq, Eq, Structural)]
pub enum Signal {
    /// No instruction has been given yet.
    Unset,
    Play,
    Pause,
    Stop,
}

/// What a worker does on reading a signal.
#[derive(Clone, Copy, Debug, PartialEq, Eq, Structural)]
pub enum Reaction {
    /// Carry on working.
    Proceed,
    /// Block until the signal leaves `Pause`.
    Wait,
    /// Finish up: the pool is stopping.
    Halt,
}

pub open spec fn reaction_to(s: Signal) -> Reaction {
    match s {
        Signal::Unset | Signal::Play => Reaction::Proceed,
        Signal::Pause => Reaction::Wait,
        Signal::Stop => Reaction::Halt,
    }
}

impl Signal {
    /// How a worker reacts to this signal.
    pub fn reaction(self) -> (r: Reaction)
        ensures
            r == reaction_to(self),
    {
        match self {
            Signal::Unset | Signal::Play => Reaction::Proceed,
            Signal::Pause => Reaction::Wait,
            Signal::Stop => Reaction::Halt,
        }
    }

    /// Whether this signal asks workers to pause.
    pub fn is_pause(&self) -> (r: bool)
        ensures
            r == (*self == Signal::Pause),
    {
        match self {
            Signal::Pause => true,
            _ => false,
        }
    }
}

/// What a worker's check answers for the signal it acts on: `true` (stop) on
/// `Stop`, `false` on every other signal.
pub fn answer_check(s: Signal) -> (r: bool)
    ensures
        r == (s == Signal::Stop),
{
    match s.reaction() {
        Reaction::Halt => true,
        _ => false,
    }
}

/// A lock held only around one read or one write, as `std::sync::Mutex`.
#[verifier::external_type_specification]
#[verifier::external_body]
#[verifier::reject_recursive_types(T)]
pub struct ExMutex<T: ?Sized>(Mutex<T>);

/// A wait queue woken when the signal changes, as `std::sync::Condvar`.
#[verifier::external_type_specification]
#[verifier::external_body]
pub struct ExCondvar(Condvar);

/// Relies on `Mutex::new`: a lock around `s`.
#[verifier::external_body]
fn new_lock(s: Signal) -> Mutex<Signal> {
    Mutex::new(s)
}

/// Relies on `Condvar::new`: an empty wait queue.
#[verifier::external_body]
fn new_condvar() -> Condvar {
    Condvar::new()
}

/// A held lock, as `std::sync::MutexGuard`; dropping it releases the lock.
#[verifier::external_type_specification]
#[verifier::external_body]
#[verifier::reject_recursive_types(T)]
pub struct ExMutexGuard<'a, T: ?Sized + 'a>(MutexGuard<'a, T>);

/// Relies on `Mutex::lock`: blocks until the lock is held. A lock poisoned by a
/// panicking holder is taken all the same.
#[verifier::external_body]
fn lock_signal(m: &Mutex<Signal>) -> MutexGuard<'_, Signal> {
    match m.lock() {
        Ok(g) => g,
        Err(e) => e.into_inner(),
    }
}

/// Relies on `Deref` for `MutexGuard`: the value under the held lock.
#[verifier::external_body]
fn guarded(g: &MutexGuard<'_, Signal>) -> Signal {
    **g
}

/// Relies on `DerefMut` for `MutexGuard`: stores `s` under the held lock.
#[verifier::external_body]
fn store_guarded(g: &mut MutexGuard<'_, Signal>, s: Signal) {
    **g = s;
}

/// Relies on `Condvar::notify_all`: wakes every thread waiting on `c`.
#[verifier::external_body]
fn wake_all(c: &Condvar) {
    c.notify_all()
}

/// Relies on `Condvar::wait_while`: releases the held lock and sleeps while the
/// signal is `Pause`. On success, the signal that ended the wait, which is never
/// `Pause`. Where the lock was poisoned meanwhile, `Err` with the signal found
/// then, of which nothing is promised.
#[verifier::external_body]
fn wait_unpaused(c: &Condvar, g: MutexGuard<'_, Signal>) -> (r: Result<Signal, Signal>)
    ensures
        r matches Ok(s) ==> s != Signal::Pause,
{
    match c.wait_while(g, |s| s.is_pause()) {
        Ok(g) => Ok(*g),
        Err(e) => Err(*e.into_inner()),
    }
}

/// The shared cell that holds the signal. The lock is held for one read or one
/// write only; a paused worker sleeps on the wait queue, which releases the lock,
/// and is woken by every change of the signal.
pub struct RunState {
    state: Mutex<Signal>,
    wake: Condvar,
}

impl RunState {
    /// A cell holding `Signal::Unset`.
    pub fn new() -> Self {
        RunState { state: new_lock(Signal::Unset), wake: new_condvar() }
    }

    /// The signal as it stands now.
    pub fn read(&self) -> Signal {
        let g = lock_signal(&self.state);
        guarded(&g)
    }

    /// Overwrites the signal, whatever it was, and wakes paused workers.
    pub fn set(&self, s: Signal) {
        {
            let mut g = lock_signal(&self.state);
            store_guarded(&mut g, s);
        }
        wake_all(&self.wake);
    }

    /// Reads the signal once and answers whether the worker is to stop, by
    /// `answer_check`: `true` on `Stop`, `false` on `Unset` and `Play`. On `Pause`
    /// it blocks until the signal changes, and answers for the signal that ended
    /// the pause. A wait cut short by a poisoned lock answers for the signal
    /// found then: a `Pause` found so is no stop.
    pub fn check(&self) -> bool {
        let g = lock_signal(&self.state);
        let first = guarded(&g);
        let acted = if first.is_pause() {
            match wait_unpaused(&self.wake, g) {
                Ok(after) => after,
                Err(found) => found,
            }
        } else {
            first
        };
        answer_check(acted)
    }
}

} // verus!
