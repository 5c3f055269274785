//! The message-passing primitives of the pipeline, as this library sees
//! them: the two channel ends, and what one non-blocking operation on an
//! end came to.

use vstd::prelude::*;
use crossbeam_channel::{Receiver, Sender};

verus! {

/// The sending end of a channel. Opaque: what the channel holds depends on
/// the threads at its other ends, so nothing is stated of it.
#[verifier::external_type_specification]
#[verifier::external_body]
#[verifier::reject_recursive_types(T)]
pub struct ExSender<T>(Sender<T>);

/// The receiving end of a channel. Opaque, for the same reason.
#[verifier::external_type_specification]
#[verifier::external_body]
#[verifier::reject_recursive_types(T)]
pub struct ExReceiver<T>(Receiver<T>);

/// What one non-blocking receive found.
pub enum Polled<T> {
    /// A message was waiting.
    Item(T),
    /// Nothing was waiting, and a sender is still alive.
    Empty,
    /// Nothing was waiting, and every sender is gone.
    Disconnected,
}

/// `crossbeam_channel::unbounded`: a fresh channel without a capacity
/// limit. Nothing is claimed of the pair.
pub assume_specification<T>[ crossbeam_channel::unbounded::<T> ]() -> (ends: (Sender<T>, Receiver<T>));

/// `crossbeam_channel::bounded`: a fresh channel that holds at most `cap`
/// messages. The function panics when `cap` is too large for its index
/// arithmetic, so small capacities only are admitted.
pub assume_specification<T>[ crossbeam_channel::bounded::<T> ](cap: usize) -> (ends: (Sender<T>, Receiver<T>))
    requires
        cap <= 0xffff,
;

/// `Receiver::try_recv`: takes a waiting message, if there is one, without
/// blocking. Which of the three outcomes comes back depends on the other
/// threads, so nothing is claimed of it.
#[verifier::external_body]
pub(crate) fn try_receive<T>(receiver: &Receiver<T>) -> (polled: Polled<T>) {
    match receiver.try_recv() {
        Ok(item) => Polled::Item(item),
        Err(crossbeam_channel::TryRecvError::Empty) => Polled::Empty,
        Err(crossbeam_channel::TryRecvError::Disconnected) => Polled::Disconnected,
    }
}

/// `Sender::try_send`: hands a message to the channel without blocking.
/// `Err` gives the message back: the channel was full or disconnected.
/// Which outcome comes back depends on the other threads.
#[verifier::external_body]
pub(crate) fn offer<T>(sender: &Sender<T>, item: T) -> (sent: Result<(), T>) {
    sender.try_send(item).map_err(|refused| refused.into_inner())
}

} // verus!
