//! Cross-thread message passing, the only coordination primitive this core
//! uses.
//!
//! Every piece of connection state is owned by exactly one thread at a time;
//! callers and the engine exchange owned values over unbounded queues instead
//! of sharing mutable state. The queues themselves come from an outside
//! concurrency crate and are trusted at this boundary: what a received value
//! means is decided by verified code on either side.

use crossbeam_channel::Receiver;
use crossbeam_channel::Sender;
use vstd::prelude::*;

verus! {

#[verifier::external_type_specification]
#[verifier::external_body]
#[verifier::reject_recursive_types(T)]
pub struct ExSender<T>(Sender<T>);

#[verifier::external_type_specification]
#[verifier::external_body]
#[verifier::reject_recursive_types(T)]
pub struct ExReceiver<T>(Receiver<T>);

/// Relies on crossbeam_channel::unbounded: returns the sending and receiving
/// endpoints of a fresh queue of unbounded capacity.
#[verifier::external_body]
pub(crate) fn queue_unbounded<T>() -> (Sender<T>, Receiver<T>) {
    crossbeam_channel::unbounded()
}

/// Relies on crossbeam_channel's `Sender::send`: on an unbounded queue the
/// message is accepted without blocking, unless every receiving endpoint is
/// gone, in which case it comes back unchanged inside the error.
#[verifier::external_body]
pub(crate) fn queue_send<T>(tx: &Sender<T>, msg: T) -> (r: Result<(), T>)
    ensures
        r matches Err(m) ==> m == msg,
{
    tx.send(msg).map_err(|e| e.0)
}

/// Relies on crossbeam_channel's `Receiver::recv`: blocks until a message
/// arrives and hands it over; `None` once the queue is empty and every
/// sending endpoint is gone.
#[verifier::external_body]
pub(crate) fn queue_recv<T>(rx: &Receiver<T>) -> (r: Option<T>) {
    rx.recv().ok()
}

/// Relies on crossbeam_channel's `Clone` for `Sender`: the result is another
/// sending endpoint of the same queue.
#[verifier::external_body]
pub(crate) fn sender_clone<T>(tx: &Sender<T>) -> Sender<T> {
    tx.clone()
}

} // verus!
