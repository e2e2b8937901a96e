//! The payload shared by the coordinator and its workers, and the channel that
//! carries messages from workers to the coordinator.
use vstd::prelude::*;
use std::sync::Arc;
use std::sync::mpsc::{Receiver, SendError, Sender};

verus! {

/// The sending half of a channel, as `std::sync::mpsc::Sender`.
#[verifier::external_type_specification]
#[verifier::external_body]
#[verifier::reject_recursive_types(T)]
pub struct ExSender<T>(Sender<T>);

/// The receiving half of a channel, as `std::sync::mpsc::Receiver`.
#[verifier::external_type_specification]
#[verifier::external_body]
#[verifier::reject_recursive_types(T)]
pub struct ExReceiver<T>(Receiver<T>);

/// A failed send, as `std::sync::mpsc::SendError`: it hands the message back.
#[verifier::external_type_specification]
#[verifier::reject_recursive_types(T)]
pub struct ExSendError<T>(SendError<T>);

/// Relies on `Arc::clone`: a second handle to the same value.
#[verifier::external_body]
pub(crate) fn share<T>(a: &Arc<T>) -> (r: Arc<T>)
    ensures
        *r == **a,
{
    Arc::clone(a)
}

/// Relies on `Arc::try_unwrap`: the value itself when `a` is its last handle,
/// else `a` back.
#[verifier::external_body]
pub(crate) fn unshare<T>(a: Arc<T>) -> (r: Result<T, Arc<T>>)
    ensures
        match r {
            Ok(t) => t == *a,
            Err(b) => *b == *a,
        },
{
    Arc::try_unwrap(a)
}

/// Relies on `std::sync::mpsc::channel`: a fresh channel's two halves.
#[verifier::external_body]
pub(crate) fn open_channel<M>() -> (Sender<M>, Receiver<M>) {
    std::sync::mpsc::channel()
}

/// Relies on `Sender::clone`: another sender into the same channel.
#[verifier::external_body]
pub(crate) fn clone_sender<M>(s: &Sender<M>) -> Sender<M> {
    s.clone()
}

/// Relies on `Sender::send`: queues `m`, or, once the receiving half is gone,
/// fails and hands `m` back.
#[verifier::external_body]
pub(crate) fn post<M>(s: &Sender<M>, m: M) -> (r: Result<(), SendError<M>>)
    ensures
        r matches Err(e) ==> e.0 == m,
{
    s.send(m)
}

} // verus!
