//! The two ends of a `crossbeam_channel` queue, as far as this crate uses them.
//!
//! A queue is shared between threads: what one end observes depends on what the
//! other end has done in the meantime. Nothing below therefore claims anything
//! about the contents of a queue; the callers are verified for every outcome.

use crossbeam_channel::{Receiver, Sender, TryRecvError, TrySendError};
use vstd::prelude::*;

verus! {

/// The producing end of a queue. Opaque to the verifier.
#[verifier::external_type_specification]
#[verifier::external_body]
#[verifier::reject_recursive_types(T)]
pub struct ExSender<T>(Sender<T>);

/// The consuming end of a queue. Opaque to the verifier.
#[verifier::external_type_specification]
#[verifier::external_body]
#[verifier::reject_recursive_types(T)]
pub struct ExReceiver<T>(Receiver<T>);

/// Why `Receiver::try_recv` produced no message. Opaque to the verifier: the
/// callers treat every such answer as "nothing waiting".
#[verifier::external_type_specification]
#[verifier::external_body]
pub struct ExTryRecvError(TryRecvError);

/// `Receiver::try_recv` never blocks. Whether a message is waiting depends on
/// the other side of the queue, so nothing is promised of the result.
pub assume_specification<T>[ Receiver::<T>::try_recv ](rx: &Receiver<T>) -> (r: Result<
    T,
    TryRecvError,
>)
;

/// `Receiver::len` reports how many messages were waiting at the moment of the
/// call. The number may be stale as soon as it is returned, so nothing is
/// promised of it.
pub assume_specification<T>[ Receiver::<T>::len ](rx: &Receiver<T>) -> (n: usize)
;

/// A failed attempt to put a message on a queue.
#[derive(Clone, Copy, Debug, PartialEq, Eq, Structural)]
pub enum ChannelError {
    /// The consuming side of the queue no longer exists.
    Closed,
    /// The queue is bounded and has no room.
    Full,
}

/// Calls `Sender::try_send`, which never blocks, and tells its two failures
/// apart. Whether the message is accepted depends on the other side of the
/// queue, so nothing is promised of the result.
#[verifier::external_body]
pub(crate) fn offer<T>(tx: &Sender<T>, msg: T) -> (r: Result<(), ChannelError>)
{
    match tx.try_send(msg) {
        Ok(()) => Ok(()),
        Err(TrySendError::Full(_)) => Err(ChannelError::Full),
        Err(TrySendError::Disconnected(_)) => Err(ChannelError::Closed),
    }
}

/// Takes what is waiting on a queue, oldest first, without blocking: at most as
/// many messages as were counted on entry, and none after the first empty read.
/// Which messages those are is decided by the other end of the queue, so the
/// callers are verified for every batch.
pub fn drain<T>(rx: &Receiver<T>) -> (batch: Vec<T>)
{
    let waiting: usize = rx.len();
    let mut batch: Vec<T> = Vec::new();
    let mut taken: usize = 0;
    while taken < waiting
        invariant
            taken <= waiting,
        decreases waiting - taken,
    {
        match rx.try_recv().ok() {
            Some(msg) => {
                batch.push(msg);
                taken = taken + 1;
            },
            None => {
                break ;
            },
        }
    }
    batch
}

} // verus!
