//! The workers' inboxes: bounded `crossbeam` channels.

use vstd::prelude::*;
use crossbeam::channel::{bounded, Receiver, Sender};
use super::Message;

verus! {

/// The sending end of a `crossbeam` channel, opaque to the verifier.
#[verifier::external_type_specification]
#[verifier::external_body]
#[verifier::reject_recursive_types(T)]
pub struct ExSender<T>(crossbeam::channel::Sender<T>);

/// The receiving end of a `crossbeam` channel, opaque to the verifier.
#[verifier::external_type_specification]
#[verifier::external_body]
#[verifier::reject_recursive_types(T)]
pub struct ExReceiver<T>(crossbeam::channel::Receiver<T>);

/// The capacity of the channel that a sending end belongs to: the number
/// of messages that it holds at most, or nothing if it is unbounded. It is
/// fixed when the channel is made.
pub uninterp spec fn channel_capacity(sender: Sender<Message>) -> Option<usize>;

/// Calls `crossbeam::channel::bounded`: a new channel that holds at most
/// `capacity` messages, which is the capacity that its sending end reports.
/// Nothing else is claimed of the two ends.
#[verifier::external_body]
pub(crate) fn inbox(capacity: u16) -> (ends: (Sender<Message>, Receiver<Message>))
    ensures
        channel_capacity(ends.0) == Some(capacity as usize),
{
    bounded::<Message>(usize::from(capacity))
}

/// Calls `Sender::capacity`, which gives the capacity of the sender's
/// channel if the channel is bounded.
#[verifier::external_body]
pub(crate) fn capacity_of(sender: &Sender<Message>) -> (capacity: Option<usize>)
    ensures
        capacity == channel_capacity(*sender),
{
    sender.capacity()
}

/// Calls `Sender::send`, which blocks while the channel is full, and says
/// whether the message went in. It did not if the channel is disconnected.
/// Nothing is claimed of the answer.
#[verifier::external_body]
pub(crate) fn deliver(sender: &Sender<Message>, message: Message) -> (sent: bool) {
    sender.send(message).is_ok()
}

/// Calls `Receiver::recv`, which blocks until a message arrives, and gives
/// the message, or nothing if the channel is empty and disconnected.
/// Nothing is claimed of the answer.
#[verifier::external_body]
pub(crate) fn await_message(receiver: &Receiver<Message>) -> (message: Option<Message>) {
    receiver.recv().ok()
}

} // verus!
