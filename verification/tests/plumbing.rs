//! The command bus (bounded FIFO) and the per-light mailbox (single-slot,
//! latest-wins).

use mqtt_pico::channel::{Channel, BLINK_CHANNEL_CAPACITY, COMMAND_BUS_CAPACITY};
use mqtt_pico::mailbox::Mailbox;

#[test]
fn channel_preserves_fifo_order() {
    let mut ch: Channel<u32> = Channel::new(COMMAND_BUS_CAPACITY);
    for v in [3, 1, 4, 1, 5] {
        assert!(ch.try_send(v).is_ok());
    }
    assert_eq!(ch.len(), 5);
    for v in [3, 1, 4, 1, 5] {
        assert_eq!(ch.try_receive(), Some(v));
    }
    assert_eq!(ch.try_receive(), None);
}

#[test]
fn full_channel_hands_the_value_back() {
    let mut ch: Channel<u32> = Channel::new(BLINK_CHANNEL_CAPACITY);
    assert_eq!(ch.capacity(), 3);
    for v in 0..3 {
        assert!(ch.try_send(v).is_ok());
    }
    // Backpressure, not silent drop: the rejected value comes back.
    assert_eq!(ch.try_send(99), Err(99));
    assert_eq!(ch.len(), 3);
    assert_eq!(ch.try_receive(), Some(0));
    assert!(ch.try_send(99).is_ok());
    assert_eq!(ch.len(), 3);
}

#[test]
fn empty_channel_receives_nothing() {
    let mut ch: Channel<u8> = Channel::new(COMMAND_BUS_CAPACITY);
    assert_eq!(ch.capacity(), 6);
    assert_eq!(ch.len(), 0);
    assert_eq!(ch.try_receive(), None);
}

#[test]
fn zero_capacity_channel_rejects_everything() {
    let mut ch: Channel<u8> = Channel::new(0);
    assert_eq!(ch.try_send(1), Err(1));
}

#[test]
fn mailbox_delivers_and_empties() {
    let mut mb: Mailbox<u32> = Mailbox::new();
    assert!(!mb.is_pending());
    assert_eq!(mb.take(), None);
    mb.publish(7);
    assert!(mb.is_pending());
    assert_eq!(mb.take(), Some(7));
    assert!(!mb.is_pending());
    assert_eq!(mb.take(), None);
}

#[test]
fn mailbox_overwrites_with_the_latest() {
    let mut mb: Mailbox<u32> = Mailbox::new();
    mb.publish(1);
    mb.publish(2);
    mb.publish(3);
    // Intermediate values are lost by design: at-most-one-pending.
    assert_eq!(mb.take(), Some(3));
    assert_eq!(mb.take(), None);
}
