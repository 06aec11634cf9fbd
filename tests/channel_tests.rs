use screen_frame::channel::{DeliveryChannel, Received};
use screen_frame::link::{latest_link, Delivery};

#[test]
fn last_of_many_sends_is_received() {
    let mut c = DeliveryChannel::new();
    for n in 1..=7u32 {
        c.send(n);
        assert!(c.backlog() <= 1);
    }
    assert_eq!(c.backlog(), 1);
    assert_eq!(c.try_recv(), Received::Value(7));
    assert_eq!(c.try_recv(), Received::Empty);
    assert_eq!(c.backlog(), 0);
}

#[test]
fn send_hands_back_replaced_value() {
    let mut c = DeliveryChannel::new();
    assert_eq!(c.send("a"), None);
    assert_eq!(c.send("b"), Some("a"));
    assert_eq!(c.try_recv(), Received::Value("b"));
}

#[test]
fn try_send_drops_newest_when_full() {
    let mut c = DeliveryChannel::new();
    assert_eq!(c.try_send(1u8), Ok(()));
    assert_eq!(c.try_send(2u8), Err(2));
    assert_eq!(c.try_recv(), Received::Value(1));
}

#[test]
fn closed_channel_drains_then_disconnects() {
    let mut c = DeliveryChannel::new();
    c.send(5u8);
    c.close();
    assert_eq!(c.try_send(6u8), Err(6));
    assert_eq!(c.try_recv(), Received::Value(5));
    assert_eq!(c.try_recv(), Received::Disconnected);
}

#[test]
fn link_keeps_latest_value() {
    let (tx, rx) = latest_link();
    assert_eq!(tx.send_latest(1u32), Delivery::Delivered);
    assert_eq!(tx.send_latest(2u32), Delivery::Delivered);
    assert_eq!(tx.send_latest(3u32), Delivery::Delivered);
    assert_eq!(rx.try_recv(), Received::Value(3));
    assert_eq!(rx.try_recv(), Received::Empty);
}

#[test]
fn link_reports_disconnect_after_sender_drops() {
    let (tx, rx) = latest_link();
    assert_eq!(tx.send_latest(9u8), Delivery::Delivered);
    drop(tx);
    assert_eq!(rx.try_recv(), Received::Value(9));
    assert_eq!(rx.try_recv(), Received::Disconnected);
}

