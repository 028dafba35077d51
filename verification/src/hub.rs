//! The broadcast channel that carries notifications to viewers.

use vstd::prelude::*;
use crate::notify::WsMessage;

verus! {

/// The sending half of a broadcast channel.
#[verifier::external_type_specification]
#[verifier::external_body]
#[verifier::reject_recursive_types(T)]
pub struct ExSender<T>(tokio::sync::broadcast::Sender<T>);

/// The receiving half of a broadcast channel.
#[verifier::external_type_specification]
#[verifier::external_body]
#[verifier::reject_recursive_types(T)]
pub struct ExReceiver<T>(tokio::sync::broadcast::Receiver<T>);

/// The number of notifications the channel retains for a slow viewer.
pub const HUB_CAPACITY: usize = 100;

/// The capacity that the channel behind `hub` was made with. A viewer that
/// falls behind by no more than this misses nothing; the channel itself
/// rounds the capacity up to the next power of two.
pub uninterp spec fn channel_capacity(hub: tokio::sync::broadcast::Sender<WsMessage>) -> nat;

/// Calls `tokio::sync::broadcast::channel` and keeps the sender. The
/// contract records the capacity that was handed to the call. That function
/// panics on a capacity of zero or above half of `usize::MAX`, which the
/// precondition leaves out.
#[verifier::external_body]
pub(crate) fn open_channel(capacity: usize) -> (r: tokio::sync::broadcast::Sender<WsMessage>)
    requires
        0 < capacity <= usize::MAX / 2,
    ensures
        channel_capacity(r) == capacity,
{
    tokio::sync::broadcast::channel(capacity).0
}

/// Calls `Sender::send`. Who receives the value depends on who is
/// subscribed at that moment, so nothing is claimed; a send without any
/// receiver is not an error here.
#[verifier::external_body]
pub(crate) fn publish(hub: &tokio::sync::broadcast::Sender<WsMessage>, msg: WsMessage) {
    let _ = hub.send(msg);
}

/// The channel that `receiver` listens on, by its sender.
pub uninterp spec fn receiver_channel(
    receiver: tokio::sync::broadcast::Receiver<WsMessage>,
) -> tokio::sync::broadcast::Sender<WsMessage>;

/// Calls `Sender::subscribe`: a receiver for the values sent from now on.
/// The receiver is built on the sender's own shared state, so the contract
/// says that it listens on the sender's channel. What it will receive
/// depends on what is sent later, and nothing is claimed of that.
#[verifier::external_body]
pub(crate) fn subscribe(hub: &tokio::sync::broadcast::Sender<WsMessage>) -> (r:
    tokio::sync::broadcast::Receiver<WsMessage>)
    ensures
        receiver_channel(r) == *hub,
{
    hub.subscribe()
}

} // verus!
