//! Geolocation readings and the future that delivers the current one.
//!
//! The host reports coordinates as fractional degrees; the glue scales
//! a reading to whole fixed-point units before it enters the library,
//! so a [`Geolocation`] carries exact integers.

use vstd::prelude::*;

use crate::Polled;
use crate::oneshot::ShotCore;
use crate::oneshot::ShotModel;
use crate::oneshot::spec_shot_drop_sender;
use crate::oneshot::spec_shot_poll;
use crate::oneshot::spec_shot_try_send;

verus! {

/// Information about a specific geolocation, in fixed-point units.
#[derive(Debug, Clone, Copy, PartialEq, Eq)]
pub struct Geolocation {
    /// The position's latitude, in millionths of a degree.
    pub latitude: i64,
    /// The position's longitude, in millionths of a degree.
    pub longitude: i64,
    /// Accuracy of latitude and longitude, in millimetres.
    pub accuracy: u64,
    /// The position's altitude relative to sea level, in millimetres,
    /// when the host can provide it.
    pub altitude: Option<i64>,
    /// Accuracy of the altitude, in millimetres, when the host can
    /// provide it.
    pub altitude_accuracy: Option<u64>,
    /// Heading clockwise from true north, in thousandths of a degree,
    /// when the host can provide it.
    pub heading: Option<u64>,
    /// Velocity of the device, in millimetres per second, when the
    /// host can provide it.
    pub speed: Option<u64>,
}

/// Future for the current geolocation of the device: the host's
/// position callback runs once and resolves it.
pub struct CurrentGeolocation<W> {
    inner: ShotCore<Geolocation, W>,
}

impl<W> View for CurrentGeolocation<W> {
    type V = ShotModel<Geolocation, W>;

    closed spec fn view(&self) -> ShotModel<Geolocation, W> {
        self.inner@
    }
}

impl<W> CurrentGeolocation<W> {
    /// Creates the future the position callback will resolve.
    pub fn new() -> (r: Self)
        ensures
            r@.value is None,
            r@.waiter is None,
            r@.senders == 1,
            !r@.sent,
            r@.receiver_live,
            !r@.taken,
    {
        CurrentGeolocation { inner: ShotCore::new() }
    }

    /// The one run of the position callback: delivers the reading and
    /// consumes its sender, returning the waiter the host must wake.
    pub fn resolve(&mut self, g: Geolocation) -> (wake: Option<W>)
        requires
            old(self)@.senders >= 1,
        ensures
            final(self)@ == spec_shot_drop_sender(spec_shot_try_send(old(self)@, g).0).0,
            (spec_shot_try_send(old(self)@, g).2 is Some ==> wake == spec_shot_try_send(
                old(self)@,
                g,
            ).2),
            (spec_shot_try_send(old(self)@, g).2 is None ==> wake == spec_shot_drop_sender(
                spec_shot_try_send(old(self)@, g).0,
            ).1),
    {
        let (r, wake) = self.inner.try_send(g);
        let late = self.inner.drop_sender();
        match late {
            Some(w) => Some(w),
            None => wake,
        }
    }

    /// Polls the future.  The callback of a live request always
    /// delivers a reading, so the closed signal cannot occur; polling
    /// again after the reading was delivered is a programming error and
    /// is ruled out.
    pub fn poll(&mut self, w: W) -> (r: Polled<Geolocation>)
        requires
            !old(self)@.taken,
            old(self)@.receiver_live,
            old(self)@.senders >= 1 || old(self)@.value is Some,
        ensures
            (final(self)@, r) == spec_shot_poll(old(self)@, w),
            !(r is Closed),
    {
        self.inner.poll(w)
    }
}

} // verus!
