//! Local channel: an unbounded many-producer, single-consumer queue that
//! bridges repeated host callback invocations into a pollable sequence.
//!
//! The channel is modelled as one explicitly owned [`ChannelCore`].  The
//! host glue holds the core behind its sender and receiver handles and
//! calls the transition methods below; each method reports the waiter
//! that must be woken, if any.  Values are delivered strictly in send
//! order, and the closed signal is produced only once the buffer is
//! drained and no sender is left.

use vstd::prelude::*;

use crate::Polled;

verus! {

/// Mathematical state of a local channel.
pub ghost struct ChannelModel<T, W> {
    /// Buffered values, oldest first.
    pub buffer: Seq<T>,
    /// The stored waiter of the receiver, if it is suspended.
    pub waiter: Option<W>,
    /// How many sender handles are alive.
    pub senders: nat,
    /// Whether the receiver handle is alive.
    pub receiver_live: bool,
}

/// State shared by all sender handles and the one receiver of a local
/// channel.  Only the receiver removes from the front of the buffer;
/// only senders append at the back.
pub struct ChannelCore<T, W> {
    buffer: Vec<T>,
    waiter: Option<W>,
    senders: usize,
    receiver_live: bool,
}

impl<T, W> View for ChannelCore<T, W> {
    type V = ChannelModel<T, W>;

    closed spec fn view(&self) -> ChannelModel<T, W> {
        ChannelModel {
            buffer: self.buffer@,
            waiter: self.waiter,
            senders: self.senders as nat,
            receiver_live: self.receiver_live,
        }
    }
}

/// Transition for a send: while the receiver is alive the value is
/// appended and the stored waiter is handed back to be woken; otherwise
/// the value is returned to the caller and nothing changes.
pub open spec fn spec_try_send<T, W>(m: ChannelModel<T, W>, v: T) -> (ChannelModel<T, W>, Result<
    (),
    T,
>, Option<W>) {
    if m.receiver_live {
        (
            ChannelModel { buffer: m.buffer.push(v), waiter: None, ..m },
            Ok(()),
            m.waiter,
        )
    } else {
        (m, Err(v), None)
    }
}

/// Transition for a receiver poll: pop the front value if one is
/// buffered; report the permanent close only when the buffer is empty
/// and no sender is left; otherwise store the waiter and stay pending.
pub open spec fn spec_poll_next<T, W>(m: ChannelModel<T, W>, w: W) -> (ChannelModel<T, W>, Polled<
    T,
>) {
    if m.buffer.len() > 0 {
        (
            ChannelModel { buffer: m.buffer.drop_first(), ..m },
            Polled::Item(m.buffer[0]),
        )
    } else if m.senders == 0 {
        (m, Polled::Closed)
    } else {
        (ChannelModel { waiter: Some(w), ..m }, Polled::Pending)
    }
}

/// Transition for dropping one sender handle: when the last sender
/// goes away the stored waiter is handed back, so that a suspended
/// receiver observes the closure instead of hanging.
pub open spec fn spec_drop_sender<T, W>(m: ChannelModel<T, W>) -> (ChannelModel<T, W>, Option<
    W,
>) {
    if m.senders <= 1 {
        (ChannelModel { senders: 0, waiter: None, ..m }, m.waiter)
    } else {
        (ChannelModel { senders: (m.senders - 1) as nat, ..m }, None)
    }
}

impl<T, W> ChannelCore<T, W> {
    /// Creates the shared core of a fresh channel, with one sender
    /// handle and the receiver alive and nothing buffered.
    pub fn new() -> (c: Self)
        ensures
            c@.buffer == Seq::<T>::empty(),
            c@.waiter is None,
            c@.senders == 1,
            c@.receiver_live,
    {
        ChannelCore { buffer: Vec::new(), waiter: None, senders: 1, receiver_live: true }
    }

    /// Attempts to send a value, returning it back if the receiver is
    /// gone, together with the waiter the caller must wake.
    pub fn try_send(&mut self, v: T) -> (r: (Result<(), T>, Option<W>))
        ensures
            (final(self)@, r.0, r.1) == spec_try_send(old(self)@, v),
    {
        if self.receiver_live {
            self.buffer.push(v);
            let wake = self.waiter.take();
            (Ok(()), wake)
        } else {
            (Err(v), None)
        }
    }

    /// Sends a value that is known to have a living receiver, returning
    /// the waiter the caller must wake.
    pub fn send(&mut self, v: T) -> (wake: Option<W>)
        requires
            old(self)@.receiver_live,
        ensures
            final(self)@ == spec_try_send(old(self)@, v).0,
            wake == spec_try_send(old(self)@, v).2,
    {
        let (r, wake) = self.try_send(v);
        wake
    }

    /// Polls the receiver side for the next value, storing `w` as the
    /// waiter whenever the result is [`Polled::Pending`].
    pub fn poll_next(&mut self, w: W) -> (r: Polled<T>)
        requires
            old(self)@.receiver_live,
        ensures
            (final(self)@, r) == spec_poll_next(old(self)@, w),
    {
        if self.buffer.len() > 0 {
            let v = self.buffer.remove(0);
            Polled::Item(v)
        } else if self.senders == 0 {
            Polled::Closed
        } else {
            self.waiter = Some(w);
            Polled::Pending
        }
    }

    /// How many values are buffered, and the exact total count of the
    /// sequence when no sender is left to add more.
    pub fn size_hint(&self) -> (r: (usize, Option<usize>))
        ensures
            r.0 == self@.buffer.len(),
            self@.senders == 0 ==> r.1 == Some(self@.buffer.len() as usize),
            self@.senders != 0 ==> r.1 is None,
    {
        if self.senders == 0 {
            (self.buffer.len(), Some(self.buffer.len()))
        } else {
            (self.buffer.len(), None)
        }
    }

    /// Whether the receiver handle is still alive.
    pub fn is_receiver_live(&self) -> (r: bool)
        ensures
            r == self@.receiver_live,
    {
        self.receiver_live
    }

    /// How many sender handles are alive.
    pub fn sender_count(&self) -> (r: usize)
        ensures
            r == self@.senders,
    {
        self.senders
    }

    /// Records one more sender handle.
    pub fn clone_sender(&mut self)
        requires
            old(self)@.senders < usize::MAX,
        ensures
            final(self)@ == (ChannelModel { senders: old(self)@.senders + 1, ..old(self)@ }),
    {
        self.senders = self.senders + 1;
    }

    /// Records that one sender handle was dropped, returning the waiter
    /// the caller must wake when the last sender just went away.
    pub fn drop_sender(&mut self) -> (wake: Option<W>)
        requires
            old(self)@.senders >= 1,
        ensures
            (final(self)@, wake) == spec_drop_sender(old(self)@),
    {
        self.senders = self.senders - 1;
        if self.senders == 0 {
            self.waiter.take()
        } else {
            None
        }
    }

    /// Records that the receiver handle was dropped; the buffered
    /// values are discarded and every later send fails.
    pub fn drop_receiver(&mut self)
        ensures
            final(self)@.buffer == Seq::<T>::empty(),
            final(self)@.waiter is None,
            final(self)@.senders == old(self)@.senders,
            !final(self)@.receiver_live,
    {
        self.receiver_live = false;
        self.buffer = Vec::new();
        self.waiter = None;
    }
}

/// The model after sending every value of `vs` in order.
pub open spec fn spec_send_all<T, W>(m: ChannelModel<T, W>, vs: Seq<T>) -> ChannelModel<T, W>
    decreases vs.len(),
{
    if vs.len() == 0 {
        m
    } else {
        spec_send_all(spec_try_send(m, vs[0]).0, vs.drop_first())
    }
}

/// The model after the receiver has drained the first `k` buffered
/// values, one poll each.
pub open spec fn spec_drained<T, W>(m: ChannelModel<T, W>, k: int) -> ChannelModel<T, W> {
    ChannelModel { buffer: m.buffer.subrange(k, m.buffer.len() as int), ..m }
}

proof fn lemma_send_all_appends<T, W>(m: ChannelModel<T, W>, vs: Seq<T>)
    requires
        m.receiver_live,
    ensures
        spec_send_all(m, vs).buffer == m.buffer + vs,
        spec_send_all(m, vs).senders == m.senders,
        spec_send_all(m, vs).receiver_live,
    decreases vs.len(),
{
    if vs.len() == 0 {
        assert(m.buffer + vs =~= m.buffer);
    } else {
        let m1 = spec_try_send(m, vs[0]).0;
        lemma_send_all_appends(m1, vs.drop_first());
        assert(m.buffer.push(vs[0]) + vs.drop_first() =~= m.buffer + vs);
    }
}

/// Law: the channel is first-in, first-out.  For any sequence of sends
/// performed before any receive, the `i`-th successive poll yields
/// exactly the `i`-th sent value, and leaves the later values buffered
/// in order.
pub proof fn lemma_local_channel_fifo<T, W>(m: ChannelModel<T, W>, vs: Seq<T>, w: W, i: int)
    requires
        m.receiver_live,
        m.buffer.len() == 0,
        0 <= i < vs.len(),
    ensures
        spec_poll_next(spec_drained(spec_send_all(m, vs), i), w).1 == Polled::<T>::Item(vs[i]),
        spec_poll_next(spec_drained(spec_send_all(m, vs), i), w).0 == spec_drained(
            spec_send_all(m, vs),
            i + 1,
        ),
{
    lemma_send_all_appends(m, vs);
    let sent = spec_send_all(m, vs);
    assert(sent.buffer =~= vs);
    let di = spec_drained(sent, i);
    assert(di.buffer.len() == vs.len() - i);
    assert(di.buffer[0] == vs[i]);
    assert(di.buffer.drop_first() =~= spec_drained(sent, i + 1).buffer);
}

/// Law: closure is permanent and orderly.  Once no sender is left, the
/// buffered values still come out first, in order; only a poll on the
/// drained buffer yields the closed signal, and it leaves the state
/// unchanged, so every later poll yields the closed signal again and
/// never a value.
pub proof fn lemma_local_channel_closed<T, W>(m: ChannelModel<T, W>, w: W)
    requires
        m.senders == 0,
    ensures
        m.buffer.len() > 0 ==> spec_poll_next(m, w).1 == Polled::<T>::Item(m.buffer[0]),
        m.buffer.len() == 0 ==> spec_poll_next(m, w).1 == Polled::<T>::Closed,
        m.buffer.len() == 0 ==> spec_poll_next(m, w).0 == m,
{
}

} // verus!
