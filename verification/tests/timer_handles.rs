use rustww::timer::{check_delay, Interval, TimerError, Timeout, MAX_TIMER_MILLIS};
use rustww::Polled;

#[test]
fn delays_inside_the_host_range_pass_unchanged() {
    assert_eq!(check_delay(0), Ok(0));
    assert_eq!(check_delay(1500), Ok(1500));
    assert_eq!(check_delay(MAX_TIMER_MILLIS), Ok(i32::MAX));
}

#[test]
fn a_delay_beyond_the_host_range_is_rejected_not_truncated() {
    assert_eq!(check_delay(MAX_TIMER_MILLIS + 1), Err(TimerError::DelayOverflow));
    assert_eq!(check_delay(u128::MAX), Err(TimerError::DelayOverflow));
}

#[test]
fn interval_routes_every_firing_through_its_channel() {
    let mut iv: Interval<u32, u8> = Interval::new(11);
    assert_eq!(iv.id(), 11);
    assert_eq!(iv.fire(1), (Ok(()), None));
    assert_eq!(iv.fire(2), (Ok(()), None));
    assert_eq!(iv.poll_next(0), Polled::Item(1));
    assert_eq!(iv.poll_next(0), Polled::Item(2));
    assert_eq!(iv.poll_next(0), Polled::Pending);
    let (_, wake) = iv.fire(3);
    assert_eq!(wake, Some(0));
}

#[test]
fn dropping_an_interval_clears_its_timer_and_stops_delivery() {
    let mut iv: Interval<u32, u8> = Interval::new(5);
    assert_eq!(iv.fire(1), (Ok(()), None));
    assert_eq!(iv.on_drop(), 5);
    assert_eq!(iv.fire(2), (Err(2), None));
}

#[test]
fn a_leaked_interval_keeps_its_channel_alive() {
    let mut iv: Interval<u32, u8> = Interval::new(5);
    assert_eq!(iv.fire(1), (Ok(()), None));
    let mut chan = iv.leak();
    assert_eq!(chan.poll_next(0), Polled::Item(1));
    assert_eq!(chan.poll_next(0), Polled::Pending);
}

#[test]
fn timeout_resolves_once_with_the_callback_result() {
    let mut t: Timeout<&'static str, u8> = Timeout::new(21);
    assert_eq!(t.id(), 21);
    assert_eq!(t.poll(6), Polled::Pending);
    assert_eq!(t.fire("done"), Some(6));
    assert_eq!(t.poll(6), Polled::Item("done"));
}

#[test]
fn dropping_a_timeout_clears_its_timer() {
    let mut t: Timeout<u32, u8> = Timeout::new(33);
    assert_eq!(t.on_drop(), 33);
}

#[test]
fn a_leaked_timeout_still_resolves() {
    let mut t: Timeout<u32, u8> = Timeout::new(2);
    assert_eq!(t.fire(99), None);
    let mut shot = t.leak();
    assert_eq!(shot.poll(0), Polled::Item(99));
}
