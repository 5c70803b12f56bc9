//! Writable stream adapter: an exclusive writer over an external sink,
//! with lazy writer acquisition, at most one write in flight,
//! idempotent handle release on close and abort, and abort-on-drop.
//!
//! [`WriteCore`] is the decision half of the adapter: the host glue
//! owns the sink and its promises and asks the core, at every step,
//! which actions to perform.  [`SinkCore`] models the batching sink
//! built on top of it, which queues writes and flushes them together.

use vstd::prelude::*;

verus! {

/// Mathematical state of a writable adapter.
pub ghost struct WriteModel {
    /// Whether the exclusive writer was acquired (lazily, on the first
    /// write).
    pub writer_acquired: bool,
    /// Whether the exclusive writer was released again.
    pub writer_released: bool,
    /// Whether a write is in flight; never more than one.
    pub writing: bool,
    /// Whether the underlying sink was told to close; permanent.
    pub closed: bool,
    /// Whether the underlying sink was told to abort; permanent.
    pub aborted: bool,
    /// Whether the cancel callback of a custom-built sink was fired;
    /// permanent.
    pub cancelled: bool,
}

/// Decision half of a writable stream adapter.
pub struct WriteCore {
    writer_acquired: bool,
    writer_released: bool,
    writing: bool,
    closed: bool,
    aborted: bool,
    cancelled: bool,
}

impl View for WriteCore {
    type V = WriteModel;

    closed spec fn view(&self) -> WriteModel {
        WriteModel {
            writer_acquired: self.writer_acquired,
            writer_released: self.writer_released,
            writing: self.writing,
            closed: self.closed,
            aborted: self.aborted,
            cancelled: self.cancelled,
        }
    }
}

/// Transition for starting a write: the one in-flight write begins and
/// the writer is acquired if this is the first use.
pub open spec fn spec_write_begin(m: WriteModel) -> (WriteModel, bool) {
    (
        WriteModel { writer_acquired: true, writing: true, ..m },
        !m.writer_acquired,
    )
}

/// Transition for closing: any held writer is released first — a
/// release of an already-released handle is a no-op, not an error —
/// and then the sink is told to close.
pub open spec fn spec_write_close(m: WriteModel) -> (WriteModel, bool) {
    (
        WriteModel { writer_released: true, closed: true, ..m },
        m.writer_acquired && !m.writer_released,
    )
}

/// Transition for aborting: like closing, but the sink is put in its
/// errored state and queued work is thrown away.
pub open spec fn spec_write_abort(m: WriteModel) -> (WriteModel, bool) {
    (
        WriteModel { writer_released: true, aborted: true, ..m },
        m.writer_acquired && !m.writer_released,
    )
}

/// Transition for dropping the adapter: release the writer if held,
/// abort the sink unless it was closed or aborted already, and fire the
/// cancel callback if it has not fired yet.
pub open spec fn spec_write_drop(m: WriteModel) -> (WriteModel, bool, bool, bool) {
    (
        WriteModel {
            writer_released: true,
            aborted: true,
            cancelled: true,
            writing: false,
            ..m
        },
        m.writer_acquired && !m.writer_released,
        !m.closed && !m.aborted,
        !m.cancelled,
    )
}

impl WriteCore {
    /// Creates the decision core of a fresh adapter; no writer is held
    /// yet.
    pub fn new() -> (c: Self)
        ensures
            !c@.writer_acquired,
            !c@.writer_released,
            !c@.writing,
            !c@.closed,
            !c@.aborted,
            !c@.cancelled,
    {
        WriteCore {
            writer_acquired: false,
            writer_released: false,
            writing: false,
            closed: false,
            aborted: false,
            cancelled: false,
        }
    }

    /// Whether a write is in flight.
    pub fn is_writing(&self) -> (r: bool)
        ensures
            r == self@.writing,
    {
        self.writing
    }

    /// Whether the sink was told to close.
    pub fn is_closed(&self) -> (r: bool)
        ensures
            r == self@.closed,
    {
        self.closed
    }

    /// Whether the sink was told to abort.
    pub fn is_aborted(&self) -> (r: bool)
        ensures
            r == self@.aborted,
    {
        self.aborted
    }

    /// Starts the one in-flight write, telling the host whether the
    /// exclusive writer must be acquired first.  The writer handle is
    /// exclusive: a second write may start only after the first
    /// resolved, and not after the sink was closed or aborted.
    pub fn begin_write(&mut self) -> (acquire: bool)
        requires
            !old(self)@.writing,
            !old(self)@.closed,
            !old(self)@.aborted,
        ensures
            (final(self)@, acquire) == spec_write_begin(old(self)@),
    {
        let acquire = !self.writer_acquired;
        self.writer_acquired = true;
        self.writing = true;
        acquire
    }

    /// Records that the in-flight write resolved, whichever way.
    pub fn end_write(&mut self)
        requires
            old(self)@.writing,
        ensures
            final(self)@ == (WriteModel { writing: false, ..old(self)@ }),
    {
        self.writing = false;
    }

    /// Prepares a close: tells the host whether a held writer must be
    /// released before the sink is told to close.
    pub fn begin_close(&mut self) -> (release: bool)
        requires
            !old(self)@.writing,
        ensures
            (final(self)@, release) == spec_write_close(old(self)@),
    {
        let release = self.writer_acquired && !self.writer_released;
        self.writer_released = true;
        self.closed = true;
        release
    }

    /// Prepares an abort: tells the host whether a held writer must be
    /// released before the sink is put in its errored state.
    pub fn begin_abort(&mut self) -> (release: bool)
        requires
            !old(self)@.writing,
        ensures
            (final(self)@, release) == spec_write_abort(old(self)@),
    {
        let release = self.writer_acquired && !self.writer_released;
        self.writer_released = true;
        self.aborted = true;
        release
    }

    /// Records the drop of the adapter, returning whether the host must
    /// release the writer, whether it must abort the sink — a drop
    /// without an explicit close aborts rather than leaking — and
    /// whether it must fire the cancel callback.
    pub fn on_drop(&mut self) -> (r: (bool, bool, bool))
        ensures
            (final(self)@, r.0, r.1, r.2) == spec_write_drop(old(self)@),
    {
        let release = self.writer_acquired && !self.writer_released;
        let abort_sink = !self.closed && !self.aborted;
        let cancel = !self.cancelled;
        self.writer_released = true;
        self.aborted = true;
        self.cancelled = true;
        self.writing = false;
        (release, abort_sink, cancel)
    }
}

/// Mathematical state of the batching sink.
pub ghost struct SinkModel {
    /// Write requests queued in the current batch.
    pub queued: nat,
    /// Whether the batch was turned into one combined flush that is
    /// being awaited.
    pub flushing: bool,
    /// Whether the close of the underlying stream was started.
    pub close_started: bool,
}

/// Batching sink over a writable adapter: writes are queued eagerly and
/// awaited together on flush.
pub struct SinkCore {
    queued: usize,
    flushing: bool,
    close_started: bool,
}

impl View for SinkCore {
    type V = SinkModel;

    closed spec fn view(&self) -> SinkModel {
        SinkModel {
            queued: self.queued as nat,
            flushing: self.flushing,
            close_started: self.close_started,
        }
    }
}

impl SinkCore {
    /// Creates a sink with an empty batch.
    pub fn new() -> (s: Self)
        ensures
            s@.queued == 0,
            !s@.flushing,
            !s@.close_started,
    {
        SinkCore { queued: 0, flushing: false, close_started: false }
    }

    /// Whether the sink can accept the next write: it can unless a
    /// flush is being awaited.
    pub fn poll_ready(&self) -> (r: bool)
        ensures
            r == !self@.flushing,
    {
        !self.flushing
    }

    /// Queues one write into the current batch.
    pub fn start_send(&mut self)
        requires
            !old(self)@.flushing,
            old(self)@.queued < usize::MAX,
        ensures
            final(self)@ == (SinkModel { queued: old(self)@.queued + 1, ..old(self)@ }),
    {
        self.queued = self.queued + 1;
    }

    /// Begins a flush: tells the host to combine and await the queued
    /// writes, unless a flush is already being awaited.
    pub fn begin_flush(&mut self) -> (start: bool)
        ensures
            final(self)@.flushing,
            start == !old(self)@.flushing,
            final(self)@.queued == old(self)@.queued,
            final(self)@.close_started == old(self)@.close_started,
    {
        let start = !self.flushing;
        self.flushing = true;
        start
    }

    /// Records that the combined flush resolved; the batch starts
    /// empty again.
    pub fn flush_resolved(&mut self)
        requires
            old(self)@.flushing,
        ensures
            final(self)@.queued == 0,
            !final(self)@.flushing,
            final(self)@.close_started == old(self)@.close_started,
    {
        self.flushing = false;
        self.queued = 0;
    }

    /// Begins the close of the underlying stream, once.
    pub fn begin_close(&mut self) -> (start: bool)
        ensures
            final(self)@.close_started,
            start == !old(self)@.close_started,
            final(self)@.queued == old(self)@.queued,
            final(self)@.flushing == old(self)@.flushing,
    {
        let start = !self.close_started;
        self.close_started = true;
        start
    }
}

/// Law: the writer is released exactly once.  From a released state no
/// transition reports a release again, and every transition leaves the
/// state released.
pub proof fn lemma_writer_release_once(m: WriteModel)
    requires
        m.writer_released,
    ensures
        !spec_write_close(m).1,
        !spec_write_abort(m).1,
        !spec_write_drop(m).1,
        spec_write_close(m).0.writer_released,
        spec_write_abort(m).0.writer_released,
        spec_write_drop(m).0.writer_released,
{
}

/// Law: a drop without a close aborts the sink, and only then.  After
/// an explicit close or abort, dropping the adapter does not signal the
/// sink again, but it still fires a not-yet-fired cancel callback
/// exactly once.
pub proof fn lemma_write_drop_aborts(m: WriteModel)
    ensures
        spec_write_drop(m).2 == (!m.closed && !m.aborted),
        spec_write_drop(m).3 == !m.cancelled,
        !spec_write_drop(spec_write_drop(m).0).2,
        !spec_write_drop(spec_write_drop(m).0).3,
{
}

} // verus!
