use rustww::oneshot::{AtomicShotCore, ShotCore, ShotState};
use rustww::Polled;

#[test]
fn exactly_one_send_succeeds() {
    let mut s: ShotCore<u32, u8> = ShotCore::new();
    s.clone_sender();
    assert_eq!(s.try_send(1), (Ok(()), None));
    assert_eq!(s.try_send(2), (Err(2), None));
    assert_eq!(s.try_send(3), (Err(3), None));
    assert_eq!(s.poll(0), Polled::Item(1));
}

#[test]
fn send_wakes_pending_receiver() {
    let mut s: ShotCore<u32, u8> = ShotCore::new();
    assert_eq!(s.poll(5), Polled::Pending);
    assert_eq!(s.try_send(42), (Ok(()), Some(5)));
    assert_eq!(s.poll(5), Polled::Item(42));
}

#[test]
fn orphaned_sender_resolves_receiver_to_closed() {
    // Create a pair; drop the sender without sending; the receiver
    // resolves to the closed signal exactly once instead of hanging.
    let mut s: ShotCore<u32, u8> = ShotCore::new();
    assert_eq!(s.poll(3), Polled::Pending);
    assert_eq!(s.drop_sender(), Some(3));
    assert_eq!(s.poll(3), Polled::Closed);
}

#[test]
fn shot_send_after_receiver_drop_returns_value() {
    let mut s: ShotCore<u32, u8> = ShotCore::new();
    s.drop_receiver();
    assert_eq!(s.try_send(8), (Err(8), None));
}

#[test]
fn sender_drop_after_send_does_not_wake() {
    let mut s: ShotCore<u32, u8> = ShotCore::new();
    assert_eq!(s.try_send(1), (Ok(()), None));
    assert_eq!(s.drop_sender(), None);
    assert_eq!(s.poll(0), Polled::Item(1));
}

#[test]
fn publish_machine_delivers_exactly_once() {
    let mut m: AtomicShotCore<u32> = AtomicShotCore::new();
    assert_eq!(m.poll(), Polled::Pending);
    m.begin_write();
    assert_eq!(m.poll(), Polled::Pending);
    m.publish(7);
    assert_eq!(m.poll(), Polled::Item(7));
}

#[test]
fn publish_machine_closed_without_value() {
    let mut m: AtomicShotCore<u32> = AtomicShotCore::new();
    m.close();
    assert_eq!(m.poll(), Polled::Closed);
}

#[test]
fn publish_machine_states_are_distinct() {
    assert_ne!(ShotState::Uninitialized, ShotState::Working);
    assert_ne!(ShotState::Working, ShotState::Initialized);
    assert_ne!(ShotState::Initialized, ShotState::Taken);
}
