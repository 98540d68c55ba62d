//! The trusted boundary around the standard library's multi-producer,
//! single-consumer channel and the mutual-exclusion lock that turns its
//! single receiving end into a shared one.
//!
//! Everything here is believed, not proved: each item's contract states only
//! what the standard library documents of the call it makes.

use vstd::prelude::*;

verus! {

#[verifier::external_type_specification]
#[verifier::external_body]
#[verifier::reject_recursive_types(T)]
pub struct ExSender<T>(std::sync::mpsc::Sender<T>);

#[verifier::external_type_specification]
#[verifier::external_body]
#[verifier::reject_recursive_types(T)]
pub struct ExReceiver<T>(std::sync::mpsc::Receiver<T>);

#[verifier::external_type_specification]
#[verifier::external_body]
#[verifier::reject_recursive_types(T)]
pub struct ExMutex<T: ?Sized>(std::sync::Mutex<T>);

/// Relies on std::sync::mpsc::channel: returns the two ends of a fresh
/// unbounded channel; messages sent on the first end arrive on the second
/// in first-in-first-out order.
#[verifier::external_body]
pub(crate) fn new_channel<T>() -> (std::sync::mpsc::Sender<T>, std::sync::mpsc::Receiver<T>) {
    std::sync::mpsc::channel()
}

/// Relies on std::sync::Mutex::new: wraps a value in a new
/// mutual-exclusion lock.
#[verifier::external_body]
pub(crate) fn new_lock<T>(value: T) -> std::sync::Mutex<T> {
    std::sync::Mutex::new(value)
}

/// Relies on std::sync::mpsc::Sender::send: enqueues the message, failing
/// only when the receiving end has already been dropped, in which case the
/// message comes back unchanged inside the error.
#[verifier::external_body]
pub(crate) fn send_message<T>(sender: &std::sync::mpsc::Sender<T>, message: T) -> (r: Result<
    (),
    T,
>)
    ensures
        r matches Err(m) ==> m == message,
{
    match sender.send(message) {
        Ok(()) => Ok(()),
        Err(e) => Err(e.0),
    }
}

/// Relies on std::sync::Mutex::lock and std::sync::mpsc::Receiver::recv:
/// the exclusive dequeue. Acquires the lock, blocks until a message is
/// available, and releases the lock before returning, so at most one caller
/// obtains any given message and no caller holds the lock while acting on
/// what it got. Returns None once nothing further can arrive: every sending
/// end was dropped and the channel is drained, or the lock was poisoned by
/// a worker that panicked mid-dequeue.
#[verifier::external_body]
pub(crate) fn recv_message<T>(receiver: &std::sync::Mutex<std::sync::mpsc::Receiver<T>>) -> Option<
    T,
> {
    match receiver.lock() {
        Ok(guard) => guard.recv().ok(),
        Err(_) => None,
    }
}

} // verus!
