use ups_core::channel::{TelemetryChannel, WaitResult};
use ups_core::shared::{init_pubsubs, MEASUREMENTS_PUBSUB_DEPTH};

#[test]
fn subscriber_sees_messages_in_order() {
    let mut ch: TelemetryChannel<u32> = TelemetryChannel::new(4);
    let sub = ch.subscriber();
    assert_eq!(ch.try_next_message(sub), None);
    ch.publish_immediate(10);
    ch.publish_immediate(20);
    assert_eq!(ch.try_next_message(sub), Some(WaitResult::Message(10)));
    assert_eq!(ch.try_next_message(sub), Some(WaitResult::Message(20)));
    assert_eq!(ch.try_next_message(sub), None);
}

#[test]
fn subscriber_starts_at_subscription_point() {
    let mut ch: TelemetryChannel<u32> = TelemetryChannel::new(4);
    ch.publish_immediate(1);
    ch.publish_immediate(2);
    let sub = ch.subscriber();
    assert_eq!(ch.try_next_message(sub), None);
    ch.publish_immediate(3);
    assert_eq!(ch.try_next_message(sub), Some(WaitResult::Message(3)));
}

#[test]
fn fast_publisher_never_blocks_and_lag_is_reported() {
    let mut ch: TelemetryChannel<u32> = TelemetryChannel::new(4);
    let sub = ch.subscriber();
    // The producer outruns the ring by three messages; every publish
    // still succeeds.
    for v in 0..7u32 {
        ch.publish_immediate(v);
    }
    // The subscriber is told how many messages it missed, then resumes
    // with the oldest retained message and drains the rest.
    assert_eq!(ch.try_next_message(sub), Some(WaitResult::Lagged(3)));
    assert_eq!(ch.try_next_message(sub), Some(WaitResult::Message(3)));
    assert_eq!(ch.try_next_message(sub), Some(WaitResult::Message(4)));
    assert_eq!(ch.try_next_message(sub), Some(WaitResult::Message(5)));
    assert_eq!(ch.try_next_message(sub), Some(WaitResult::Message(6)));
    assert_eq!(ch.try_next_message(sub), None);
    // Fresh messages after the lag are consumed normally.
    ch.publish_immediate(7);
    assert_eq!(ch.try_next_message(sub), Some(WaitResult::Message(7)));
}

#[test]
fn slow_consumer_does_not_starve_another() {
    let mut ch: TelemetryChannel<u32> = TelemetryChannel::new(2);
    let fast = ch.subscriber();
    let slow = ch.subscriber();
    ch.publish_immediate(1);
    assert_eq!(ch.try_next_message(fast), Some(WaitResult::Message(1)));
    ch.publish_immediate(2);
    ch.publish_immediate(3);
    ch.publish_immediate(4);
    // The fast consumer lagged by one (message 2 was evicted)...
    assert_eq!(ch.try_next_message(fast), Some(WaitResult::Lagged(1)));
    assert_eq!(ch.try_next_message(fast), Some(WaitResult::Message(3)));
    // ...and the slow one by two, independently.
    assert_eq!(ch.try_next_message(slow), Some(WaitResult::Lagged(2)));
    assert_eq!(ch.try_next_message(slow), Some(WaitResult::Message(3)));
    assert_eq!(ch.try_next_message(slow), Some(WaitResult::Message(4)));
}

#[test]
fn depth_one_channel_keeps_newest() {
    let mut ch: TelemetryChannel<u32> = TelemetryChannel::new(1);
    let sub = ch.subscriber();
    ch.publish_immediate(1);
    ch.publish_immediate(2);
    ch.publish_immediate(3);
    assert_eq!(ch.try_next_message(sub), Some(WaitResult::Lagged(2)));
    assert_eq!(ch.try_next_message(sub), Some(WaitResult::Message(3)));
    assert_eq!(ch.try_next_message(sub), None);
}

#[test]
fn init_pubsubs_creates_empty_channels() {
    let mut bus = init_pubsubs();
    assert_eq!(bus.measurements.depth(), MEASUREMENTS_PUBSUB_DEPTH);
    assert_eq!(bus.ina226_measurements.depth(), MEASUREMENTS_PUBSUB_DEPTH);
    let sub = bus.bq76920_measurements.subscriber();
    assert_eq!(bus.bq76920_measurements.try_next_message(sub), None);
}
