//! The log channel of one supervised process: a bounded broadcast channel of
//! text lines, with one producer and any number of subscribers that read
//! each at its own pace.
//!
//! The channel is tokio's. Publishing never waits for a subscriber. Which
//! lines a subscriber receives depends on when it reads and on who else
//! reads, so that is not stated here. What is stated is which channel a
//! handle or a subscriber belongs to and, by the functions that publish,
//! which lines are handed to the channel and in what order.

use vstd::prelude::*;
use tokio::sync::broadcast::{Receiver, Sender};

verus! {

/// How many lines a channel is asked to retain.
pub const LOG_CAPACITY: usize = 1000;

/// The sending half of a broadcast channel.
#[verifier::external_type_specification]
#[verifier::external_body]
#[verifier::reject_recursive_types(T)]
pub struct ExSender<T>(tokio::sync::broadcast::Sender<T>);

/// The receiving half of a broadcast channel: one subscriber.
#[verifier::external_type_specification]
#[verifier::external_body]
#[verifier::reject_recursive_types(T)]
pub struct ExReceiver<T>(tokio::sync::broadcast::Receiver<T>);

/// Whether two handles send on the same channel: what `Sender::same_channel`
/// answers for them.
pub uninterp spec fn same_channel(one: Sender<String>, other: Sender<String>) -> bool;

/// Whether `receiver` is a subscriber of the channel that `sender` sends
/// on: `Sender::subscribe` of that channel made it.
pub uninterp spec fn subscribed_to(sender: Sender<String>, receiver: Receiver<String>) -> bool;

/// Whether `receiver` belongs to a channel that was made for it alone and
/// whose sender was dropped at once, so that nothing is ever sent on it.
pub uninterp spec fn without_sender(receiver: Receiver<String>) -> bool;

/// `tokio::sync::broadcast::channel`: a new channel, of which the sending
/// half is handed out. The receiver that comes with it is dropped, so the
/// channel starts without a subscriber. The call panics for a capacity of 0
/// or above `usize::MAX / 2`; `requires` leaves those out. Nothing is
/// claimed of the result.
#[verifier::external_body]
pub(crate) fn open_channel(capacity: usize) -> (sender: Sender<String>)
    requires
        1 <= capacity <= usize::MAX / 2,
{
    tokio::sync::broadcast::channel::<String>(capacity).0
}

/// `tokio::sync::broadcast::channel`: a new channel, of which the receiving
/// half is handed out and the sender is dropped: the receiver is one
/// without a sender.
#[verifier::external_body]
pub(crate) fn closed_receiver(capacity: usize) -> (receiver: Receiver<String>)
    requires
        1 <= capacity <= usize::MAX / 2,
    ensures
        without_sender(receiver),
{
    tokio::sync::broadcast::channel::<String>(capacity).1
}

/// `Sender::send`: hands `line` to the channel. Whether a subscriber was
/// there to take it is not handed on.
#[verifier::external_body]
pub(crate) fn publish(sender: &Sender<String>, line: String) {
    let _ = sender.send(line);
}

/// `Sender::subscribe`: a new subscriber of the channel that `sender`
/// sends on. It receives what is sent from now on; which lines those are is
/// not claimed.
#[verifier::external_body]
pub(crate) fn subscribe(sender: &Sender<String>) -> (receiver: Receiver<String>)
    ensures
        subscribed_to(*sender, receiver),
{
    sender.subscribe()
}

/// `Sender::clone`: another handle to the same channel.
#[verifier::external_body]
pub(crate) fn share(sender: &Sender<String>) -> (shared: Sender<String>)
    ensures
        same_channel(*sender, shared),
{
    sender.clone()
}

} // verus!
