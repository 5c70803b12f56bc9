//! Interval and timeout handles: repeated or one-shot timer callbacks
//! routed through a local or one-shot channel, with explicit
//! cancellation on drop and an overflow guard on the delay.
//!
//! The host glue registers the actual timer and owns the callback; the
//! cores below hold the channel the callback feeds and decide what
//! every poll and every drop must do.  A delay that the host timer
//! interface cannot represent is rejected at construction instead of
//! being truncated silently.

use vstd::prelude::*;

use crate::Polled;
use crate::local::ChannelCore;
use crate::local::ChannelModel;
use crate::local::spec_drop_sender;
use crate::local::spec_poll_next;
use crate::local::spec_try_send;
use crate::oneshot::ShotCore;
use crate::oneshot::ShotModel;
use crate::oneshot::spec_shot_drop_sender;
use crate::oneshot::spec_shot_poll;
use crate::oneshot::spec_shot_try_send;

verus! {

/// The largest delay, in milliseconds, that the host timer interface
/// can represent.
pub const MAX_TIMER_MILLIS: u128 = i32::MAX as u128;

/// Why a timer could not be constructed.
#[derive(Debug, Clone, Copy, PartialEq, Eq)]
pub enum TimerError {
    /// The requested delay exceeds [`MAX_TIMER_MILLIS`].
    DelayOverflow,
}

/// Checks a delay against the range of the host timer interface:
/// exactly the delays of at most [`MAX_TIMER_MILLIS`] milliseconds are
/// accepted, and nothing is ever truncated.
pub fn check_delay(millis: u128) -> (r: Result<i32, TimerError>)
    ensures
        millis <= MAX_TIMER_MILLIS ==> r == Ok::<i32, TimerError>(millis as i32),
        millis > MAX_TIMER_MILLIS ==> r == Err::<i32, TimerError>(TimerError::DelayOverflow),
{
    if millis <= MAX_TIMER_MILLIS {
        Ok(millis as i32)
    } else {
        Err(TimerError::DelayOverflow)
    }
}

/// Mathematical state of an interval handle.
pub ghost struct IntervalModel<T, W> {
    /// The host identifier of the registered repeating timer.
    pub id: int,
    /// The channel the timer callback feeds.
    pub chan: ChannelModel<T, W>,
}

/// An owned handle of a repeating timer.  Each run of the registered
/// callback feeds one value through a local channel, so the handle is
/// polled like a stream; dropping the handle clears the host timer.
pub struct Interval<T, W> {
    id: i32,
    chan: ChannelCore<T, W>,
}

impl<T, W> View for Interval<T, W> {
    type V = IntervalModel<T, W>;

    closed spec fn view(&self) -> IntervalModel<T, W> {
        IntervalModel { id: self.id as int, chan: self.chan@ }
    }
}

/// Transition for one run of an interval callback: the value goes
/// through the channel, and a callback that finds the receiver gone
/// lets go of its sender so the memory is freed.
pub open spec fn spec_interval_fire<T, W>(m: ChannelModel<T, W>, v: T) -> (ChannelModel<
    T,
    W,
>, Result<(), T>, Option<W>) {
    if m.receiver_live {
        spec_try_send(m, v)
    } else {
        (spec_drop_sender(m).0, Err(v), spec_drop_sender(m).1)
    }
}

impl<T, W> Interval<T, W> {
    /// Creates the handle for a repeating timer the host registered
    /// under `id`, with a fresh channel between the callback and the
    /// handle.
    pub fn new(id: i32) -> (r: Self)
        ensures
            r@.id == id,
            r@.chan.buffer == Seq::<T>::empty(),
            r@.chan.waiter is None,
            r@.chan.senders == 1,
            r@.chan.receiver_live,
    {
        Interval { id, chan: ChannelCore::new() }
    }

    /// The host identifier of the interval.
    pub fn id(&self) -> (r: i32)
        ensures
            r == self@.id,
    {
        self.id
    }

    /// One run of the registered callback: sends the value through the
    /// channel, returning the waiter the host must wake.  When the
    /// handle was dropped the value comes back and the callback's
    /// sender is let go.
    pub fn fire(&mut self, v: T) -> (r: (Result<(), T>, Option<W>))
        requires
            old(self)@.chan.senders >= 1,
        ensures
            final(self)@.id == old(self)@.id,
            (final(self)@.chan, r.0, r.1) == spec_interval_fire(old(self)@.chan, v),
    {
        if self.chan.is_receiver_live() {
            self.chan.try_send(v)
        } else {
            let wake = self.chan.drop_sender();
            (Err(v), wake)
        }
    }

    /// Polls the handle for the next callback result, storing `w` as
    /// the waiter whenever nothing has arrived yet.
    pub fn poll_next(&mut self, w: W) -> (r: Polled<T>)
        requires
            old(self)@.chan.receiver_live,
        ensures
            final(self)@.id == old(self)@.id,
            (final(self)@.chan, r) == spec_poll_next(old(self)@.chan, w),
    {
        self.chan.poll_next(w)
    }

    /// Records the drop of the handle: the host must clear the timer
    /// under the returned identifier, and later callback runs find the
    /// receiver gone.
    pub fn on_drop(&mut self) -> (clear: i32)
        ensures
            clear == old(self)@.id,
            final(self)@.id == old(self)@.id,
            !final(self)@.chan.receiver_live,
            final(self)@.chan.buffer == Seq::<T>::empty(),
    {
        self.chan.drop_receiver();
        self.id
    }

    /// Leaks the handle: cancellation of the timer is left to the host
    /// for good, and only the receiving channel survives.
    pub fn leak(self) -> (chan: ChannelCore<T, W>)
        ensures
            chan@ == self@.chan,
    {
        self.chan
    }
}

/// Mathematical state of a timeout handle.
pub ghost struct TimeoutModel<T, W> {
    /// The host identifier of the registered one-shot timer.
    pub id: int,
    /// The one-shot channel the timer callback feeds.
    pub shot: ShotModel<T, W>,
}

/// An owned handle of a one-shot timer.  The single run of the
/// registered callback resolves the handle like a future; dropping the
/// handle clears the host timer.
pub struct Timeout<T, W> {
    id: i32,
    shot: ShotCore<T, W>,
}

impl<T, W> View for Timeout<T, W> {
    type V = TimeoutModel<T, W>;

    closed spec fn view(&self) -> TimeoutModel<T, W> {
        TimeoutModel { id: self.id as int, shot: self.shot@ }
    }
}

/// Transition for the single run of a timeout callback: the value is
/// sent and the callback's sender is consumed; whichever of the two
/// steps hands back the stored waiter, that waiter is woken.
pub open spec fn spec_timeout_fire<T, W>(m: ShotModel<T, W>, v: T) -> (ShotModel<T, W>, Option<
    W,
>) {
    let sent = spec_shot_try_send(m, v).0;
    let wake_send = spec_shot_try_send(m, v).2;
    let wake_drop = spec_shot_drop_sender(sent).1;
    (
        spec_shot_drop_sender(sent).0,
        if wake_send is Some {
            wake_send
        } else {
            wake_drop
        },
    )
}

impl<T, W> Timeout<T, W> {
    /// Creates the handle for a one-shot timer the host registered
    /// under `id`.
    pub fn new(id: i32) -> (r: Self)
        ensures
            r@.id == id,
            r@.shot.value is None,
            r@.shot.waiter is None,
            r@.shot.senders == 1,
            !r@.shot.sent,
            r@.shot.receiver_live,
            !r@.shot.taken,
    {
        Timeout { id, shot: ShotCore::new() }
    }

    /// The host identifier of the timeout.
    pub fn id(&self) -> (r: i32)
        ensures
            r == self@.id,
    {
        self.id
    }

    /// The single run of the registered callback: sends the value and
    /// consumes the sender, returning the waiter the host must wake.
    pub fn fire(&mut self, v: T) -> (wake: Option<W>)
        requires
            old(self)@.shot.senders >= 1,
        ensures
            final(self)@.id == old(self)@.id,
            (final(self)@.shot, wake) == spec_timeout_fire(old(self)@.shot, v),
    {
        let (r, wake) = self.shot.try_send(v);
        let late = self.shot.drop_sender();
        match late {
            Some(w) => Some(w),
            None => wake,
        }
    }

    /// Polls the handle.  The callback of a live handle always sends
    /// before its sender goes away, so the closed signal cannot occur;
    /// polling again after the value was delivered is a programming
    /// error and is ruled out.
    pub fn poll(&mut self, w: W) -> (r: Polled<T>)
        requires
            !old(self)@.shot.taken,
            old(self)@.shot.receiver_live,
            old(self)@.shot.senders >= 1 || old(self)@.shot.value is Some,
        ensures
            final(self)@.id == old(self)@.id,
            (final(self)@.shot, r) == spec_shot_poll(old(self)@.shot, w),
            !(r is Closed),
    {
        self.shot.poll(w)
    }

    /// Records the drop of the handle: the host must clear the timer
    /// under the returned identifier.
    pub fn on_drop(&mut self) -> (clear: i32)
        ensures
            clear == old(self)@.id,
            final(self)@.id == old(self)@.id,
            !final(self)@.shot.receiver_live,
    {
        self.shot.drop_receiver();
        self.id
    }

    /// Leaks the handle: cancellation of the timer is left to the host
    /// for good, and only the receiving one-shot channel survives.
    pub fn leak(self) -> (shot: ShotCore<T, W>)
        ensures
            shot@ == self@.shot,
    {
        self.shot
    }
}

} // verus!
