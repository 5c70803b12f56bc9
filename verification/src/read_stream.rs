//! Readable stream adapter: wraps an external chunked source behind a
//! pollable sequence, with lazy acquisition of the exclusive reader,
//! exactly one in-flight read at a time, a permanent terminal state and
//! cancel-on-drop for custom-built sources.
//!
//! [`ReadCore`] is the decision half of the adapter.  The host glue
//! owns the actual source, reader and in-flight request; before every
//! step it asks the core what to do ([`ReadCore::poll_start`]), and
//! when a read resolves it reports the outcome
//! ([`ReadCore::on_chunk`]).  The core answers with the actions the
//! host must perform — acquire the reader, start a read, release the
//! reader, fire the cancel callback — and guarantees that the reader is
//! released exactly once and the cancel callback fired exactly once.

use vstd::prelude::*;

use crate::Polled;

verus! {

/// Mathematical state of a readable adapter.
pub ghost struct ReadModel {
    /// Whether the exclusive reader was acquired (it is acquired lazily
    /// on the first poll, not at construction).
    pub reader_acquired: bool,
    /// Whether the exclusive reader was released again.
    pub reader_released: bool,
    /// Whether a read request is in flight; never more than one.
    pub reading: bool,
    /// Whether the sequence ended (source exhausted, errored or
    /// cancelled); permanent.
    pub terminal: bool,
    /// Whether the cancel callback of a custom-built source was fired;
    /// permanent.
    pub cancelled: bool,
}

/// Decision half of a readable stream adapter.
pub struct ReadCore {
    reader_acquired: bool,
    reader_released: bool,
    reading: bool,
    terminal: bool,
    cancelled: bool,
}

impl View for ReadCore {
    type V = ReadModel;

    closed spec fn view(&self) -> ReadModel {
        ReadModel {
            reader_acquired: self.reader_acquired,
            reader_released: self.reader_released,
            reading: self.reading,
            terminal: self.terminal,
            cancelled: self.cancelled,
        }
    }
}

/// What one chunk request brought back from the host: possibly a value,
/// and whether the source reported exhaustion.
#[derive(Debug, PartialEq, Eq)]
pub struct ChunkResult<T> {
    /// The source says no further chunk will come.
    pub done: bool,
    /// The chunk carried by this response, if any.
    pub value: Option<T>,
}

/// The instruction an adapter poll hands back to the host.
#[derive(Debug, PartialEq, Eq)]
pub enum ReadStep {
    /// The sequence already ended: yield the terminal result again and
    /// do not touch the source.
    Terminal,
    /// A read is in flight: poll it and report through `on_chunk`.
    AwaitCurrent,
    /// Start a new read; the payload says whether the exclusive reader
    /// must be acquired first (true on the very first poll only).
    StartRead(bool),
}

/// Transition for the beginning of a poll: a terminal adapter stays
/// put; an in-flight read is resumed, never doubled; otherwise a new
/// read starts, acquiring the reader on the first poll.
pub open spec fn spec_read_poll(m: ReadModel) -> (ReadModel, ReadStep) {
    if m.terminal {
        (m, ReadStep::Terminal)
    } else if m.reading {
        (m, ReadStep::AwaitCurrent)
    } else {
        (
            ReadModel { reader_acquired: true, reading: true, ..m },
            ReadStep::StartRead(!m.reader_acquired),
        )
    }
}

/// The meaning of a chunk response: a response that carries no value,
/// or says the source is done, ends the sequence.
pub open spec fn spec_chunk_value<T>(c: ChunkResult<T>) -> Option<T> {
    if c.done || c.value is None {
        None
    } else {
        c.value
    }
}

/// Transition for a resolved read: a good chunk is handed out and the
/// adapter is ready for the next read; exhaustion or a host error makes
/// the adapter terminal and releases the reader, exactly once.
pub open spec fn spec_on_chunk<T, E>(m: ReadModel, r: Result<ChunkResult<T>, E>) -> (ReadModel, Polled<
    Result<T, E>,
>, bool) {
    match r {
        Ok(c) => {
            if spec_chunk_value(c) is Some {
                (ReadModel { reading: false, ..m }, Polled::Item(Ok(spec_chunk_value(c)->0)), false)
            } else {
                (
                    ReadModel { reading: false, terminal: true, reader_released: true, ..m },
                    Polled::Closed,
                    !m.reader_released,
                )
            }
        },
        Err(e) => {
            (
                ReadModel { reading: false, terminal: true, reader_released: true, ..m },
                Polled::Item(Err(e)),
                !m.reader_released,
            )
        },
    }
}

/// Transition for dropping the adapter: the reader is released if it is
/// still held, and the cancel callback fires if it has not fired yet —
/// each exactly once, even while a read is in flight.
pub open spec fn spec_read_drop(m: ReadModel) -> (ReadModel, bool, bool) {
    (
        ReadModel { reader_released: true, terminal: true, cancelled: true, reading: false, ..m },
        m.reader_acquired && !m.reader_released,
        !m.cancelled,
    )
}

impl ReadCore {
    /// Creates the decision core of a fresh adapter.  Construction is
    /// cheap and touches no reader: the reader is acquired lazily on
    /// the first poll.
    pub fn new() -> (c: Self)
        ensures
            !c@.reader_acquired,
            !c@.reader_released,
            !c@.reading,
            !c@.terminal,
            !c@.cancelled,
    {
        ReadCore {
            reader_acquired: false,
            reader_released: false,
            reading: false,
            terminal: false,
            cancelled: false,
        }
    }

    /// Decides what this poll must do, and records the read that it
    /// starts.
    pub fn poll_start(&mut self) -> (r: ReadStep)
        ensures
            (final(self)@, r) == spec_read_poll(old(self)@),
    {
        if self.terminal {
            ReadStep::Terminal
        } else if self.reading {
            ReadStep::AwaitCurrent
        } else {
            let acquire = !self.reader_acquired;
            self.reader_acquired = true;
            self.reading = true;
            ReadStep::StartRead(acquire)
        }
    }

    /// Computes the value a chunk response carries, exactly as the
    /// adapter interprets it.
    pub fn chunk_value<T>(c: ChunkResult<T>) -> (r: Option<T>)
        ensures
            r == spec_chunk_value(c),
    {
        if c.done {
            None
        } else {
            c.value
        }
    }

    /// Takes the outcome of the in-flight read and returns what the
    /// poll yields, together with whether the host must release the
    /// reader now.
    pub fn on_chunk<T, E>(&mut self, r: Result<ChunkResult<T>, E>) -> (out: (Polled<
        Result<T, E>,
    >, bool))
        requires
            old(self)@.reading,
            !old(self)@.terminal,
        ensures
            (final(self)@, out.0, out.1) == spec_on_chunk(old(self)@, r),
    {
        self.reading = false;
        match r {
            Ok(c) => {
                match Self::chunk_value(c) {
                    Some(v) => (Polled::Item(Ok(v)), false),
                    None => {
                        self.terminal = true;
                        let release = !self.reader_released;
                        self.reader_released = true;
                        (Polled::Closed, release)
                    },
                }
            },
            Err(e) => {
                self.terminal = true;
                let release = !self.reader_released;
                self.reader_released = true;
                (Polled::Item(Err(e)), release)
            },
        }
    }

    /// Records the drop of the adapter, returning whether the host must
    /// release the reader and whether it must fire the cancel callback.
    pub fn on_drop(&mut self) -> (r: (bool, bool))
        ensures
            (final(self)@, r.0, r.1) == spec_read_drop(old(self)@),
    {
        let release = self.reader_acquired && !self.reader_released;
        let cancel = !self.cancelled;
        self.reader_released = true;
        self.terminal = true;
        self.cancelled = true;
        self.reading = false;
        (release, cancel)
    }
}

/// Appends one chunk to the bytes gathered so far, as the
/// remaining-bytes readers do between two host reads: nothing is
/// reordered, dropped or duplicated.
pub fn append_chunk(gathered: &mut Vec<u8>, chunk: &Vec<u8>)
    requires
        old(gathered)@.len() + chunk@.len() <= usize::MAX,
    ensures
        final(gathered)@ == old(gathered)@ + chunk@,
{
    let mut i: usize = 0;
    while i < chunk.len()
        invariant
            i <= chunk@.len(),
            gathered@ == old(gathered)@ + chunk@.subrange(0, i as int),
        decreases chunk@.len() - i,
    {
        gathered.push(chunk[i]);
        proof {
            assert(gathered@ =~= old(gathered)@ + chunk@.subrange(0, i + 1));
        }
        i = i + 1;
    }
    proof {
        assert(chunk@.subrange(0, chunk@.len() as int) =~= chunk@);
    }
}

/// A split source: two independent adapters read the full data each,
/// and the source backing them is let go only when both halves are
/// done.
pub struct TeeCore {
    halves_live: u8,
}

impl TeeCore {
    /// How many of the two halves are still alive.
    pub closed spec fn halves_live(&self) -> nat {
        self.halves_live as nat
    }

    /// Creates the bookkeeping for a source split in two.
    pub fn new() -> (t: Self)
        ensures
            t.halves_live() == 2,
    {
        TeeCore { halves_live: 2 }
    }

    /// Records that one half finished, returning whether the backing
    /// source must be released now — true exactly when the last half
    /// went away.
    pub fn half_done(&mut self) -> (release: bool)
        requires
            old(self).halves_live() >= 1,
        ensures
            final(self).halves_live() == old(self).halves_live() - 1,
            release == (old(self).halves_live() == 1),
    {
        self.halves_live = self.halves_live - 1;
        self.halves_live == 0
    }
}

/// Law: the terminal state is fused.  Once the adapter is terminal,
/// every poll yields the terminal instruction again and changes
/// nothing, so no further host read is ever issued.
pub proof fn lemma_read_fused_terminal(m: ReadModel)
    requires
        m.terminal,
    ensures
        spec_read_poll(m).1 == ReadStep::Terminal,
        spec_read_poll(m).0 == m,
{
}

/// Law: exhaustion and errors are terminal.  A chunk response carrying
/// no value, or a host error, leaves the adapter terminal with the
/// reader released.
pub proof fn lemma_read_end_is_terminal<T, E>(m: ReadModel, r: Result<ChunkResult<T>, E>)
    requires
        m.reading,
        !m.terminal,
        (r matches Ok(c) ==> spec_chunk_value(c) is None),
    ensures
        spec_on_chunk(m, r).0.terminal,
        spec_on_chunk(m, r).0.reader_released,
        spec_on_chunk(m, r).2 == !m.reader_released,
{
}

/// Law: dropping an adapter built with a cancel callback fires that
/// callback exactly once, even while a read is in flight: polls and
/// chunk outcomes never fire it, the first drop fires it, and a state
/// that has fired it never fires it again.
pub proof fn lemma_read_cancel_on_drop<T, E>(m: ReadModel, r: Result<ChunkResult<T>, E>)
    requires
        !m.cancelled,
    ensures
        spec_read_drop(m).2,
        spec_read_drop(m).0.cancelled,
        !spec_read_drop(spec_read_drop(m).0).2,
        spec_read_poll(m).0.cancelled == m.cancelled,
        spec_on_chunk(m, r).0.cancelled == m.cancelled,
{
}

/// Law: the reader is released exactly once.  Every transition that
/// reports a release leaves the state released, and no transition
/// reports a release from a state that is already released.
pub proof fn lemma_reader_release_once<T, E>(m: ReadModel, r: Result<ChunkResult<T>, E>)
    requires
        m.reader_released,
    ensures
        !spec_on_chunk(m, r).2,
        !spec_read_drop(m).1,
        spec_on_chunk(m, r).0.reader_released,
        spec_read_drop(m).0.reader_released,
        spec_read_poll(m).0.reader_released,
{
}

} // verus!
