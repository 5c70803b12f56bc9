//! One-shot channel: transfers a single value from a host callback into
//! exactly one pollable future, with graceful closure when the sender
//! disappears before sending.
//!
//! Two interchangeable cores implement the same contract.  [`ShotCore`]
//! is the cooperative single-threaded discipline, where the sender side
//! is weak and the receiver detects "no sender left" by the sender
//! count.  [`AtomicShotCore`] is the state machine used by the variant
//! that publishes across threads: `Uninitialized -> Working ->
//! Initialized -> Taken`, with the direct `Uninitialized -> Taken`
//! transition standing for "closed with no value".

use vstd::prelude::*;

use crate::Polled;

verus! {

/// Mathematical state of a one-shot channel.
pub ghost struct ShotModel<T, W> {
    /// The value slot; filled by the one successful send.
    pub value: Option<T>,
    /// The stored waiter of the receiver, if it is suspended.
    pub waiter: Option<W>,
    /// How many sender handles are alive.
    pub senders: nat,
    /// Whether a send has succeeded already.
    pub sent: bool,
    /// Whether the receiver handle is alive.
    pub receiver_live: bool,
    /// Whether the receiver has already resolved (to a value or to the
    /// closed signal); polling past that point is a programming error.
    pub taken: bool,
}

/// State shared by the sender handles and the one receiver of a
/// one-shot channel.
pub struct ShotCore<T, W> {
    value: Option<T>,
    waiter: Option<W>,
    senders: usize,
    sent: bool,
    receiver_live: bool,
    taken: bool,
}

impl<T, W> View for ShotCore<T, W> {
    type V = ShotModel<T, W>;

    closed spec fn view(&self) -> ShotModel<T, W> {
        ShotModel {
            value: self.value,
            waiter: self.waiter,
            senders: self.senders as nat,
            sent: self.sent,
            receiver_live: self.receiver_live,
            taken: self.taken,
        }
    }
}

/// Transition for a send: it succeeds only for the first send while the
/// receiver is alive; the stored waiter is handed back to be woken.
/// Every other send returns the value to the caller and changes
/// nothing.
pub open spec fn spec_shot_try_send<T, W>(m: ShotModel<T, W>, v: T) -> (ShotModel<T, W>, Result<
    (),
    T,
>, Option<W>) {
    if !m.sent && m.receiver_live {
        (
            ShotModel { value: Some(v), waiter: None, sent: true, ..m },
            Ok(()),
            m.waiter,
        )
    } else {
        (m, Err(v), None)
    }
}

/// Transition for a receiver poll: consume the value if one was sent;
/// resolve to the closed signal if no sender is left to ever send one;
/// otherwise store the waiter and stay pending.
pub open spec fn spec_shot_poll<T, W>(m: ShotModel<T, W>, w: W) -> (ShotModel<T, W>, Polled<T>) {
    if m.value is Some {
        (
            ShotModel { value: None, taken: true, ..m },
            Polled::Item(m.value->0),
        )
    } else if m.senders == 0 {
        (ShotModel { taken: true, ..m }, Polled::Closed)
    } else {
        (ShotModel { waiter: Some(w), ..m }, Polled::Pending)
    }
}

/// Transition for dropping one sender handle: when the last sender goes
/// away without having sent, the stored waiter is handed back, so that
/// a suspended receiver resolves to the closed signal instead of
/// hanging forever.
pub open spec fn spec_shot_drop_sender<T, W>(m: ShotModel<T, W>) -> (ShotModel<T, W>, Option<
    W,
>) {
    if m.senders <= 1 && !m.sent {
        (ShotModel { senders: 0, waiter: None, ..m }, m.waiter)
    } else {
        (ShotModel { senders: (m.senders - 1) as nat, ..m }, None)
    }
}

impl<T, W> ShotCore<T, W> {
    /// Creates the shared core of a fresh one-shot channel, with one
    /// sender handle and the receiver alive and the slot empty.
    pub fn new() -> (c: Self)
        ensures
            c@.value is None,
            c@.waiter is None,
            c@.senders == 1,
            !c@.sent,
            c@.receiver_live,
            !c@.taken,
    {
        ShotCore {
            value: None,
            waiter: None,
            senders: 1,
            sent: false,
            receiver_live: true,
            taken: false,
        }
    }

    /// Attempts to send the value, returning it back if a value was
    /// already sent or the receiver is gone, together with the waiter
    /// the caller must wake.
    pub fn try_send(&mut self, v: T) -> (r: (Result<(), T>, Option<W>))
        ensures
            (final(self)@, r.0, r.1) == spec_shot_try_send(old(self)@, v),
    {
        if !self.sent && self.receiver_live {
            self.value = Some(v);
            self.sent = true;
            let wake = self.waiter.take();
            (Ok(()), wake)
        } else {
            (Err(v), None)
        }
    }

    /// Sends the value without caring whether it was accepted,
    /// returning the waiter the caller must wake.
    pub fn send(&mut self, v: T) -> (wake: Option<W>)
        ensures
            final(self)@ == spec_shot_try_send(old(self)@, v).0,
            wake == spec_shot_try_send(old(self)@, v).2,
    {
        let (r, wake) = self.try_send(v);
        wake
    }

    /// Polls the receiver side, storing `w` as the waiter whenever the
    /// result is [`Polled::Pending`].  Polling again after a value or
    /// the closed signal was already delivered is a programming error,
    /// so such a call is ruled out.
    pub fn poll(&mut self, w: W) -> (r: Polled<T>)
        requires
            !old(self)@.taken,
            old(self)@.receiver_live,
        ensures
            (final(self)@, r) == spec_shot_poll(old(self)@, w),
    {
        match self.value.take() {
            Some(v) => {
                self.taken = true;
                Polled::Item(v)
            },
            None => {
                if self.senders == 0 {
                    self.taken = true;
                    Polled::Closed
                } else {
                    self.waiter = Some(w);
                    Polled::Pending
                }
            },
        }
    }

    /// Whether the receiver has already resolved.
    pub fn is_taken(&self) -> (r: bool)
        ensures
            r == self@.taken,
    {
        self.taken
    }

    /// Whether a sent value is waiting in the slot.
    pub fn has_value(&self) -> (r: bool)
        ensures
            r == (self@.value is Some),
    {
        self.value.is_some()
    }

    /// How many sender handles are alive.
    pub fn sender_count(&self) -> (r: usize)
        ensures
            r == self@.senders,
    {
        self.senders
    }

    /// Records one more sender handle.
    pub fn clone_sender(&mut self)
        requires
            old(self)@.senders < usize::MAX,
        ensures
            final(self)@ == (ShotModel { senders: old(self)@.senders + 1, ..old(self)@ }),
    {
        self.senders = self.senders + 1;
    }

    /// Records that one sender handle was dropped, returning the waiter
    /// the caller must wake when the last sender went away unsent.
    pub fn drop_sender(&mut self) -> (wake: Option<W>)
        requires
            old(self)@.senders >= 1,
        ensures
            (final(self)@, wake) == spec_shot_drop_sender(old(self)@),
    {
        self.senders = self.senders - 1;
        if self.senders == 0 && !self.sent {
            self.waiter.take()
        } else {
            None
        }
    }

    /// Records that the receiver handle was dropped; the slot is
    /// discarded and every later send fails.
    pub fn drop_receiver(&mut self)
        ensures
            final(self)@.value is None,
            final(self)@.waiter is None,
            !final(self)@.receiver_live,
            final(self)@.senders == old(self)@.senders,
            final(self)@.sent == old(self)@.sent,
    {
        self.receiver_live = false;
        self.value = None;
        self.waiter = None;
    }
}

/// Law: the channel is single-use.  The first send on a fresh pair
/// succeeds; afterwards every send, from any sender handle, returns its
/// value back as an error and leaves the channel unchanged, so no
/// second value can ever be delivered.
pub proof fn lemma_one_shot_single_use<T, W>(m: ShotModel<T, W>, v1: T, v2: T)
    requires
        !m.sent,
        m.receiver_live,
    ensures
        spec_shot_try_send(m, v1).1 == Ok::<(), T>(()),
        spec_shot_try_send(spec_shot_try_send(m, v1).0, v2).1 == Err::<(), T>(v2),
        spec_shot_try_send(spec_shot_try_send(m, v1).0, v2).0 == spec_shot_try_send(m, v1).0,
{
}

/// Law: a sent channel stays sent.  Every transition preserves the
/// `sent` flag, so a failed send can never start succeeding again.
pub proof fn lemma_one_shot_sent_is_stable<T, W>(m: ShotModel<T, W>, v: T, w: W)
    requires
        m.sent,
    ensures
        spec_shot_try_send(m, v).0.sent,
        spec_shot_try_send(m, v).1 == Err::<(), T>(v),
        spec_shot_poll(m, w).0.sent,
        spec_shot_drop_sender(m).0.sent,
{
}

/// Law: an orphaned sender closes the channel.  Dropping the last
/// sender before sending hands back the stored waiter, so a suspended
/// receiver is woken, and its next poll resolves to the closed signal
/// rather than hanging.
pub proof fn lemma_one_shot_orphaned_sender<T, W>(m: ShotModel<T, W>, w: W)
    requires
        m.senders == 1,
        !m.sent,
        m.value is None,
        !m.taken,
        m.receiver_live,
    ensures
        spec_shot_drop_sender(m).1 == m.waiter,
        spec_shot_poll(spec_shot_drop_sender(m).0, w).1 == Polled::<T>::Closed,
{
}

/// Progress of the cross-thread publish machine.  The order is strict:
/// a state never moves backwards, so a value is published at most once
/// and consumed at most once.
#[derive(Debug, Clone, Copy, PartialEq, Eq)]
pub enum ShotState {
    /// No write has started; the sender is still free to publish.
    Uninitialized,
    /// The sender is inside the short write-then-publish window; the
    /// receiver must re-poll, never block.
    Working,
    /// The value is published and waiting for the receiver.
    Initialized,
    /// The slot was consumed, or the sender left without publishing.
    Taken,
}

/// One-shot core for the variant that publishes across threads: the
/// slot is guarded by the [`ShotState`] machine instead of a lock.
pub struct AtomicShotCore<T> {
    state: ShotState,
    slot: Option<T>,
    reported: bool,
}

impl<T> AtomicShotCore<T> {
    /// The slot holds a value exactly in the published state, and
    /// nothing was consumed or reported out of order.
    pub closed spec fn wf(&self) -> bool {
        &&& (self.slot is Some <==> self.state is Initialized)
        &&& (self.reported ==> self.state is Taken)
    }

    /// The current state of the publish machine.
    pub closed spec fn state(&self) -> ShotState {
        self.state
    }

    /// The published value, if any.
    pub closed spec fn slot(&self) -> Option<T> {
        self.slot
    }

    /// Whether the receiver has already observed the final outcome.
    pub closed spec fn reported(&self) -> bool {
        self.reported
    }

    /// Creates a fresh machine with nothing written.
    pub fn new() -> (c: Self)
        ensures
            c.wf(),
            c.state() is Uninitialized,
            !c.reported(),
    {
        AtomicShotCore { state: ShotState::Uninitialized, slot: None, reported: false }
    }

    /// The sender claims the slot for writing; only the first claim can
    /// happen, because the state moves away from `Uninitialized`.
    pub fn begin_write(&mut self)
        requires
            old(self).wf(),
            old(self).state() is Uninitialized,
        ensures
            final(self).wf(),
            final(self).state() is Working,
            final(self).reported() == old(self).reported(),
    {
        self.state = ShotState::Working;
    }

    /// The sender publishes the written value, making it visible to the
    /// receiver.
    pub fn publish(&mut self, v: T)
        requires
            old(self).wf(),
            old(self).state() is Working,
        ensures
            final(self).wf(),
            final(self).state() is Initialized,
            final(self).slot() == Some(v),
            final(self).reported() == old(self).reported(),
    {
        self.slot = Some(v);
        self.state = ShotState::Initialized;
    }

    /// The sender leaves without publishing: the machine moves straight
    /// to `Taken` with an empty slot, which the receiver observes as
    /// closed with no value.
    pub fn close(&mut self)
        requires
            old(self).wf(),
            old(self).state() is Uninitialized,
        ensures
            final(self).wf(),
            final(self).state() is Taken,
            final(self).slot() is None,
            final(self).reported() == old(self).reported(),
    {
        self.state = ShotState::Taken;
    }

    /// The receiver polls the machine.  A published value is consumed
    /// exactly once; a machine closed without a value resolves to the
    /// closed signal exactly once; in the write window and before any
    /// write the receiver stays pending and re-polls.
    pub fn poll(&mut self) -> (r: Polled<T>)
        requires
            old(self).wf(),
            !old(self).reported(),
        ensures
            final(self).wf(),
            old(self).state() is Initialized ==> (r == Polled::Item(old(self).slot()->0)
                && final(self).state() is Taken && final(self).reported()),
            old(self).state() is Taken ==> (r == Polled::<T>::Closed
                && final(self).state() is Taken && final(self).reported()),
            (old(self).state() is Uninitialized || old(self).state() is Working) ==> (r
                == Polled::<T>::Pending && *final(self) == *old(self)),
    {
        match self.state {
            ShotState::Initialized => {
                let v = self.slot.take();
                self.state = ShotState::Taken;
                self.reported = true;
                match v {
                    Some(v) => Polled::Item(v),
                    None => Polled::Pending,
                }
            },
            ShotState::Taken => {
                self.reported = true;
                Polled::Closed
            },
            _ => Polled::Pending,
        }
    }
}

} // verus!
