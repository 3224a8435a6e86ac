//! The delivery task of one session as a state machine.
//!
//! The task itself waits on the outbound queue and writes to the MQTT sink;
//! both are done by the embedding program. What the task does next is decided
//! here: the program reports what it observed as a `DeliveryEvent`, and
//! `delivery_step` answers with the next state and the action to perform.

use crate::channel::OutboundMessage;
use vstd::prelude::*;

verus! {

/// Why a delivery task has ended.
#[derive(Clone, Copy, Debug, PartialEq, Eq, Structural)]
pub enum CloseReason {
    /// The sink refused a message; the sink was closed in response.
    SinkFailed,
    /// The sink was found closed when a message arrived.
    SinkClosed,
    /// Every sender of the outbound queue is gone.
    ChannelClosed,
}

/// The state of a delivery task. `Waiting` and `Delivering` together are the
/// running states; every `Closed` state is terminal.
#[derive(Clone, Copy, Debug, PartialEq, Eq, Structural)]
pub enum DeliveryState {
    /// Running: waiting for the next message of the queue.
    Waiting,
    /// Running: a message was handed to the sink and its fate is awaited.
    Delivering,
    /// Ended, for the given reason.
    Closed(CloseReason),
}

/// What the delivery task observed.
#[derive(Clone, Debug, PartialEq, Eq)]
pub enum DeliveryEvent {
    /// A message was taken from the queue; `sink_open` is what the sink
    /// reported at that moment.
    Received { message: OutboundMessage, sink_open: bool },
    /// The sink accepted the message handed to it.
    Delivered,
    /// The sink refused the message handed to it.
    DeliveryFailed,
    /// The queue reported that it is closed.
    ChannelClosed,
}

/// What the delivery task is to do next.
#[derive(Clone, Debug, PartialEq, Eq)]
pub enum DeliveryAction {
    /// Wait for the next message of the queue.
    Receive,
    /// Hand this message to the sink, once.
    Deliver(OutboundMessage),
    /// Close the sink, then end the task.
    CloseSink,
    /// End the task.
    Stop,
    /// Nothing: the event does not concern the state the task is in.
    Ignore,
}

impl DeliveryState {
    /// Whether the task has not ended.
    pub open spec fn running(self) -> bool {
        self is Waiting || self is Delivering
    }

    /// Whether the task has not ended.
    pub fn is_running(&self) -> (b: bool)
        ensures
            b == self.running(),
    {
        match self {
            DeliveryState::Waiting => true,
            DeliveryState::Delivering => true,
            DeliveryState::Closed(_) => false,
        }
    }
}

impl DeliveryAction {
    /// Whether the action ends the task.
    pub open spec fn terminating(self) -> bool {
        self is CloseSink || self is Stop
    }

    /// Whether the action ends the task.
    pub fn is_terminating(&self) -> (b: bool)
        ensures
            b == self.terminating(),
    {
        match self {
            DeliveryAction::CloseSink => true,
            DeliveryAction::Stop => true,
            _ => false,
        }
    }
}

/// The state a delivery task starts in.
pub open spec fn initial_state() -> DeliveryState {
    DeliveryState::Waiting
}

/// The next state and the action for a state and an event.
pub open spec fn spec_step(state: DeliveryState, event: DeliveryEvent) -> (
    DeliveryState,
    DeliveryAction,
) {
    match state {
        DeliveryState::Closed(_) => (state, DeliveryAction::Ignore),
        DeliveryState::Waiting => match event {
            DeliveryEvent::Received { message, sink_open } => if sink_open {
                (DeliveryState::Delivering, DeliveryAction::Deliver(message))
            } else {
                (DeliveryState::Closed(CloseReason::SinkClosed), DeliveryAction::Stop)
            },
            DeliveryEvent::ChannelClosed => (
                DeliveryState::Closed(CloseReason::ChannelClosed),
                DeliveryAction::Stop,
            ),
            _ => (state, DeliveryAction::Ignore),
        },
        DeliveryState::Delivering => match event {
            DeliveryEvent::Delivered => (DeliveryState::Waiting, DeliveryAction::Receive),
            DeliveryEvent::DeliveryFailed => (
                DeliveryState::Closed(CloseReason::SinkFailed),
                DeliveryAction::CloseSink,
            ),
            DeliveryEvent::ChannelClosed => (
                DeliveryState::Closed(CloseReason::ChannelClosed),
                DeliveryAction::Stop,
            ),
            _ => (state, DeliveryAction::Ignore),
        },
    }
}

/// The state of a task that started in `state` and observed `events` in turn.
pub open spec fn state_after(state: DeliveryState, events: Seq<DeliveryEvent>) -> DeliveryState
    decreases events.len(),
{
    if events.len() == 0 {
        state
    } else {
        spec_step(state_after(state, events.drop_last()), events.last()).0
    }
}

/// The action that a task started in `state` takes on the event at position
/// `i` of `events`.
pub open spec fn action_at(state: DeliveryState, events: Seq<DeliveryEvent>, i: int) -> DeliveryAction
    recommends
        0 <= i < events.len(),
{
    spec_step(state_after(state, events.take(i)), events[i]).1
}

/// A new delivery task: it is running and its first action is to wait for
/// a message.
pub fn delivery_start() -> (r: (DeliveryState, DeliveryAction))
    ensures
        r == (initial_state(), DeliveryAction::Receive),
{
    (DeliveryState::Waiting, DeliveryAction::Receive)
}

/// Decides what a delivery task does on an event.
pub fn delivery_step(state: DeliveryState, event: DeliveryEvent) -> (r: (
    DeliveryState,
    DeliveryAction,
))
    ensures
        r == spec_step(state, event),
{
    match state {
        DeliveryState::Closed(_) => (state, DeliveryAction::Ignore),
        DeliveryState::Waiting => match event {
            DeliveryEvent::Received { message, sink_open } => {
                if sink_open {
                    (DeliveryState::Delivering, DeliveryAction::Deliver(message))
                } else {
                    (DeliveryState::Closed(CloseReason::SinkClosed), DeliveryAction::Stop)
                }
            },
            DeliveryEvent::ChannelClosed => (
                DeliveryState::Closed(CloseReason::ChannelClosed),
                DeliveryAction::Stop,
            ),
            _ => (state, DeliveryAction::Ignore),
        },
        DeliveryState::Delivering => match event {
            DeliveryEvent::Delivered => (DeliveryState::Waiting, DeliveryAction::Receive),
            DeliveryEvent::DeliveryFailed => (
                DeliveryState::Closed(CloseReason::SinkFailed),
                DeliveryAction::CloseSink,
            ),
            DeliveryEvent::ChannelClosed => (
                DeliveryState::Closed(CloseReason::ChannelClosed),
                DeliveryAction::Stop,
            ),
            _ => (state, DeliveryAction::Ignore),
        },
    }
}

/// A closed task stays closed for the same reason and does nothing, whatever
/// it is told.
pub proof fn lemma_closed_is_terminal(reason: CloseReason, event: DeliveryEvent)
    ensures
        spec_step(DeliveryState::Closed(reason), event) == (
            DeliveryState::Closed(reason),
            DeliveryAction::Ignore,
        ),
{
}

/// A running task that learns of the queue's closure ends, with one `Stop`
/// and without a delivery.
pub proof fn lemma_channel_closure_stops(state: DeliveryState)
    requires
        state.running(),
    ensures
        spec_step(state, DeliveryEvent::ChannelClosed) == (
            DeliveryState::Closed(CloseReason::ChannelClosed),
            DeliveryAction::Stop,
        ),
{
}

/// A step ends the task exactly when it takes a running task to a closed
/// state, and a message is handed to the sink only by a task that goes on
/// running.
pub proof fn lemma_step_outcomes(state: DeliveryState, event: DeliveryEvent)
    ensures
        spec_step(state, event).1.terminating() <==> state.running() && !spec_step(
            state,
            event,
        ).0.running(),
        spec_step(state, event).1 is Deliver ==> state.running() && spec_step(
            state,
            event,
        ).0.running(),
        spec_step(state, event).1 matches DeliveryAction::Deliver(m) ==> event
            == (DeliveryEvent::Received { message: m, sink_open: true }),
{
}

/// Once a task is closed it stays in that state through every later event.
pub proof fn lemma_closed_forever(
    state: DeliveryState,
    events: Seq<DeliveryEvent>,
    i: int,
    j: int,
)
    requires
        0 <= i <= j <= events.len(),
        !state_after(state, events.take(i)).running(),
    ensures
        state_after(state, events.take(j)) == state_after(state, events.take(i)),
    decreases j - i,
{
    if i < j {
        lemma_closed_forever(state, events, i, j - 1);
        assert(events.take(j).drop_last() =~= events.take(j - 1));
        assert(events.take(j).last() == events[j - 1]);
    }
}

/// A task ends at most once: after an action that ends it, every later
/// action is `Ignore`: no second stop, no second closing of the sink, no
/// further delivery.
pub proof fn lemma_terminates_once(
    state: DeliveryState,
    events: Seq<DeliveryEvent>,
    i: int,
    j: int,
)
    requires
        0 <= i < j < events.len(),
        action_at(state, events, i).terminating(),
    ensures
        action_at(state, events, j) == DeliveryAction::Ignore,
{
    let before = state_after(state, events.take(i));
    lemma_step_outcomes(before, events[i]);
    assert(events.take(i + 1).drop_last() =~= events.take(i));
    assert(events.take(i + 1).last() == events[i]);
    assert(!state_after(state, events.take(i + 1)).running());
    lemma_closed_forever(state, events, i + 1, j);
}

/// A task that is told of the queue's closure is closed from then on, and
/// from a running state it ends by exactly that step unless it had ended
/// before.
pub proof fn lemma_closure_ends_task(state: DeliveryState, events: Seq<DeliveryEvent>, i: int)
    requires
        0 <= i < events.len(),
        events[i] == DeliveryEvent::ChannelClosed,
    ensures
        !state_after(state, events).running(),
        state_after(state, events.take(i)).running() ==> action_at(state, events, i)
            == DeliveryAction::Stop,
        !state_after(state, events.take(i)).running() ==> action_at(state, events, i)
            == DeliveryAction::Ignore,
{
    let before = state_after(state, events.take(i));
    assert(events.take(i + 1).drop_last() =~= events.take(i));
    assert(events.take(i + 1).last() == events[i]);
    assert(!state_after(state, events.take(i + 1)).running());
    lemma_closed_forever(state, events, i + 1, events.len() as int);
    assert(events.take(events.len() as int) =~= events);
}

} // verus!
