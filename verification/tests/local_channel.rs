use rustww::local::ChannelCore;
use rustww::Polled;

#[test]
fn sends_then_drains_in_order_then_closes() {
    // Create a channel; send 1, 2, 3 in order; drop the sender; the
    // receiver sees Some(1), Some(2), Some(3), then the closed signal
    // forever.
    let mut c: ChannelCore<u32, u8> = ChannelCore::new();
    assert_eq!(c.try_send(1), (Ok(()), None));
    assert_eq!(c.try_send(2), (Ok(()), None));
    assert_eq!(c.try_send(3), (Ok(()), None));
    assert_eq!(c.drop_sender(), None);
    assert_eq!(c.poll_next(0), Polled::Item(1));
    assert_eq!(c.poll_next(0), Polled::Item(2));
    assert_eq!(c.poll_next(0), Polled::Item(3));
    assert_eq!(c.poll_next(0), Polled::Closed);
    assert_eq!(c.poll_next(0), Polled::Closed);
}

#[test]
fn pending_stores_waiter_and_send_wakes_it() {
    let mut c: ChannelCore<&'static str, u8> = ChannelCore::new();
    assert_eq!(c.poll_next(7), Polled::Pending);
    let (sent, wake) = c.try_send("hello");
    assert_eq!(sent, Ok(()));
    assert_eq!(wake, Some(7));
    assert_eq!(c.poll_next(7), Polled::Item("hello"));
}

#[test]
fn send_after_receiver_drop_returns_value() {
    let mut c: ChannelCore<u32, u8> = ChannelCore::new();
    assert_eq!(c.try_send(1), (Ok(()), None));
    c.drop_receiver();
    assert_eq!(c.try_send(2), (Err(2), None));
    assert_eq!(c.try_send(3), (Err(3), None));
}

#[test]
fn empty_buffer_with_live_sender_is_pending_not_closed() {
    let mut c: ChannelCore<u32, u8> = ChannelCore::new();
    assert_eq!(c.poll_next(1), Polled::Pending);
    assert_eq!(c.poll_next(2), Polled::Pending);
}

#[test]
fn last_sender_drop_wakes_pending_receiver() {
    let mut c: ChannelCore<u32, u8> = ChannelCore::new();
    c.clone_sender();
    assert_eq!(c.poll_next(9), Polled::Pending);
    assert_eq!(c.drop_sender(), None);
    assert_eq!(c.drop_sender(), Some(9));
    assert_eq!(c.poll_next(9), Polled::Closed);
}

#[test]
fn size_hint_is_exact_once_senders_are_gone() {
    let mut c: ChannelCore<u32, u8> = ChannelCore::new();
    assert_eq!(c.try_send(4), (Ok(()), None));
    assert_eq!(c.try_send(5), (Ok(()), None));
    assert_eq!(c.size_hint(), (2, None));
    assert_eq!(c.drop_sender(), None);
    assert_eq!(c.size_hint(), (2, Some(2)));
}

#[test]
fn waiter_is_overwritten_by_a_later_poll() {
    let mut c: ChannelCore<u32, u8> = ChannelCore::new();
    assert_eq!(c.poll_next(1), Polled::Pending);
    assert_eq!(c.poll_next(2), Polled::Pending);
    let (_, wake) = c.try_send(10);
    assert_eq!(wake, Some(2));
}
