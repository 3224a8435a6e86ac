use mqtt_session::channel::OutboundMessage;
use mqtt_session::delivery::{
    delivery_start, delivery_step, CloseReason, DeliveryAction, DeliveryEvent, DeliveryState,
};

fn message(topic: &str, payload: &[u8]) -> OutboundMessage {
    OutboundMessage { topic: topic.to_string(), payload: payload.to_vec() }
}

fn received(sink_open: bool) -> DeliveryEvent {
    DeliveryEvent::Received { message: message("home/temp", b"21"), sink_open }
}

#[test]
fn a_task_starts_waiting() {
    let (state, action) = delivery_start();
    assert_eq!(state, DeliveryState::Waiting);
    assert_eq!(action, DeliveryAction::Receive);
    assert!(state.is_running());
}

#[test]
fn a_message_for_an_open_sink_is_delivered() {
    let (state, action) = delivery_step(DeliveryState::Waiting, received(true));
    assert_eq!(state, DeliveryState::Delivering);
    assert_eq!(action, DeliveryAction::Deliver(message("home/temp", b"21")));
    assert!(state.is_running());
    assert!(!action.is_terminating());
}

#[test]
fn a_successful_delivery_returns_to_waiting() {
    let (state, action) = delivery_step(DeliveryState::Delivering, DeliveryEvent::Delivered);
    assert_eq!(state, DeliveryState::Waiting);
    assert_eq!(action, DeliveryAction::Receive);
}

#[test]
fn a_failed_delivery_closes_the_sink_and_ends_the_task() {
    let (state, action) = delivery_step(DeliveryState::Delivering, DeliveryEvent::DeliveryFailed);
    assert_eq!(state, DeliveryState::Closed(CloseReason::SinkFailed));
    assert_eq!(action, DeliveryAction::CloseSink);
    assert!(!state.is_running());
    assert!(action.is_terminating());
}

#[test]
fn a_message_for_a_closed_sink_ends_the_task_undelivered() {
    let (state, action) = delivery_step(DeliveryState::Waiting, received(false));
    assert_eq!(state, DeliveryState::Closed(CloseReason::SinkClosed));
    assert_eq!(action, DeliveryAction::Stop);
}

#[test]
fn a_closed_queue_ends_a_running_task() {
    for state in [DeliveryState::Waiting, DeliveryState::Delivering] {
        let (next, action) = delivery_step(state, DeliveryEvent::ChannelClosed);
        assert_eq!(next, DeliveryState::Closed(CloseReason::ChannelClosed));
        assert_eq!(action, DeliveryAction::Stop);
    }
}

#[test]
fn events_out_of_turn_are_ignored() {
    for event in [DeliveryEvent::Delivered, DeliveryEvent::DeliveryFailed] {
        let (state, action) = delivery_step(DeliveryState::Waiting, event);
        assert_eq!(state, DeliveryState::Waiting);
        assert_eq!(action, DeliveryAction::Ignore);
    }
    for sink_open in [true, false] {
        let (state, action) = delivery_step(DeliveryState::Delivering, received(sink_open));
        assert_eq!(state, DeliveryState::Delivering);
        assert_eq!(action, DeliveryAction::Ignore);
    }
}

#[test]
fn a_closed_task_ignores_every_event() {
    for reason in [CloseReason::SinkFailed, CloseReason::SinkClosed, CloseReason::ChannelClosed] {
        for event in [
            received(true),
            received(false),
            DeliveryEvent::Delivered,
            DeliveryEvent::DeliveryFailed,
            DeliveryEvent::ChannelClosed,
        ] {
            let (state, action) = delivery_step(DeliveryState::Closed(reason), event);
            assert_eq!(state, DeliveryState::Closed(reason));
            assert_eq!(action, DeliveryAction::Ignore);
            assert!(!action.is_terminating());
        }
    }
}

#[test]
fn a_task_ends_exactly_once() {
    let events = vec![
        received(true),
        DeliveryEvent::Delivered,
        received(true),
        DeliveryEvent::Delivered,
        DeliveryEvent::ChannelClosed,
        DeliveryEvent::ChannelClosed,
        received(true),
        DeliveryEvent::DeliveryFailed,
    ];
    let (mut state, _) = delivery_start();
    let mut endings = 0;
    let mut deliveries = 0;
    for event in events {
        let (next, action) = delivery_step(state, event);
        if action.is_terminating() {
            endings += 1;
        }
        if matches!(action, DeliveryAction::Deliver(_)) {
            deliveries += 1;
        }
        state = next;
    }
    assert_eq!(endings, 1);
    assert_eq!(deliveries, 2);
    assert_eq!(state, DeliveryState::Closed(CloseReason::ChannelClosed));
}
