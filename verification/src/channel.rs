//! Boundary to the bounded queue between subscription callbacks and the
//! delivery task.

use async_channel::{Receiver, Sender};
use vstd::prelude::*;

verus! {

/// One message on its way from the overlay network to the MQTT client.
#[derive(Clone, Debug, PartialEq, Eq)]
pub struct OutboundMessage {
    /// The MQTT topic the message is delivered under.
    pub topic: String,
    /// The payload, as received.
    pub payload: Vec<u8>,
}

/// The sending half of an `async_channel` channel.
#[verifier::external_type_specification]
#[verifier::external_body]
#[verifier::reject_recursive_types(T)]
pub struct ExSender<T>(Sender<T>);

/// The receiving half of an `async_channel` channel.
#[verifier::external_type_specification]
#[verifier::external_body]
#[verifier::reject_recursive_types(T)]
pub struct ExReceiver<T>(Receiver<T>);

/// The number of messages the channel behind `tx` was created to hold at
/// most; `None` for an unbounded channel.
pub uninterp spec fn queue_capacity(tx: Sender<OutboundMessage>) -> Option<nat>;

/// Creates a channel with a single slot.
///
/// Trusted: the body calls `async_channel::bounded`, which panics on a zero
/// capacity and otherwise returns the two halves of a channel holding at
/// most `cap` messages at a time. Only the capacity one is admitted, for
/// which the channel is a single slot and allocates no buffer. The contract
/// claims only that the sender reports this capacity.
#[verifier::external_body]
pub(crate) fn bounded_channel(cap: usize) -> (pair: (
    Sender<OutboundMessage>,
    Receiver<OutboundMessage>,
))
    requires
        cap == 1,
    ensures
        queue_capacity(pair.0) == Some(cap as nat),
{
    async_channel::bounded(cap)
}

/// Asks the channel behind `tx` for its capacity.
///
/// Trusted: the body calls `async_channel::Sender::capacity`, which returns
/// the capacity the channel was created with, or `None` for an unbounded
/// channel. The contract claims that this is the value named
/// `queue_capacity`.
#[verifier::external_body]
pub(crate) fn capacity_of(tx: &Sender<OutboundMessage>) -> (cap: Option<usize>)
    ensures
        queue_capacity(*tx) == match cap {
            Some(n) => Some(n as nat),
            None => None,
        },
{
    tx.capacity()
}

/// Makes another sender for the channel behind `tx`.
///
/// Trusted: the body calls `async_channel::Sender::clone`, which returns a
/// sender that shares the channel of `tx`. The contract claims only that the
/// new sender reports the same capacity.
#[verifier::external_body]
pub(crate) fn another_sender(tx: &Sender<OutboundMessage>) -> (other: Sender<OutboundMessage>)
    ensures
        queue_capacity(other) == queue_capacity(*tx),
{
    tx.clone()
}

/// Hands a message to the channel, waiting while the channel is full.
///
/// Trusted: the body calls `async_channel::Sender::send_blocking`, which
/// returns `Ok` once the message is queued and gives the message back when
/// the channel is closed. Which of the two happens depends on the receiving
/// side; the contract claims only that a refused message is the one that was
/// handed in.
#[verifier::external_body]
pub(crate) fn send_blocking(tx: &Sender<OutboundMessage>, message: OutboundMessage) -> (r: Result<
    (),
    OutboundMessage,
>)
    ensures
        r matches Err(back) ==> back == message,
{
    match tx.send_blocking(message) {
        Ok(()) => Ok(()),
        Err(async_channel::SendError(back)) => Err(back),
    }
}

} // verus!
