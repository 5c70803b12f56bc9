//! Abort signal: a shared cancellation flag with a waiter list,
//! composable with any future.
//!
//! The flag is modelled as one explicitly owned [`AbortState`].  Handle
//! and signal sides of the host glue share it; a future is made
//! abortable by pairing it with an [`AbortGate`], whose poll decision
//! consults the flag first and registers the future as a waiter exactly
//! once.  Once set, the flag never reverts; every waiter registered
//! before the transition is handed back to be woken exactly once, and a
//! waiter arriving afterwards observes the abort immediately.

use vstd::prelude::*;

verus! {

/// Mathematical state of an abort flag.
pub ghost struct AbortModel<W> {
    /// Whether the abort was signalled; never reverts.
    pub aborted: bool,
    /// The waiters to wake at the moment of the transition, in
    /// registration order.
    pub waiters: Seq<W>,
}

/// Shared state of an abort flag: the boolean and the outstanding
/// waiters.
pub struct AbortState<W> {
    aborted: bool,
    waiters: Vec<W>,
}

impl<W> View for AbortState<W> {
    type V = AbortModel<W>;

    closed spec fn view(&self) -> AbortModel<W> {
        AbortModel { aborted: self.aborted, waiters: self.waiters@ }
    }
}

/// Transition for signalling the abort: the flag is set, the waiter
/// list is cleared, and exactly the waiters registered so far are
/// handed back to be woken.
pub open spec fn spec_abort<W>(m: AbortModel<W>) -> (AbortModel<W>, Seq<W>) {
    (AbortModel { aborted: true, waiters: Seq::empty() }, m.waiters)
}

/// Decision of an abortable future's poll: give up aborted, or go on
/// and poll the wrapped future.
#[derive(Debug, PartialEq, Eq)]
pub enum GateStep {
    /// The flag was set: resolve to the distinguished aborted outcome
    /// without polling the wrapped future again.
    Aborted,
    /// Not aborted: the wrapped future is to be polled.
    PollInner,
}

/// Transition for a gate poll: an already-set flag wins before any
/// registration; otherwise the waiter is registered on the first poll
/// only, and the wrapped future is polled.
pub open spec fn spec_gate_poll<W>(m: AbortModel<W>, awaited: bool, w: W) -> (AbortModel<
    W,
>, bool, GateStep) {
    if m.aborted {
        (m, awaited, GateStep::Aborted)
    } else if !awaited {
        (AbortModel { waiters: m.waiters.push(w), ..m }, true, GateStep::PollInner)
    } else {
        (m, true, GateStep::PollInner)
    }
}

impl<W> AbortState<W> {
    /// Creates a fresh flag that is not aborted and has no waiters.
    pub fn new() -> (s: Self)
        ensures
            !s@.aborted,
            s@.waiters == Seq::<W>::empty(),
    {
        AbortState { aborted: false, waiters: Vec::new() }
    }

    /// Creates a flag that is already aborted.
    pub fn new_aborted() -> (s: Self)
        ensures
            s@.aborted,
            s@.waiters == Seq::<W>::empty(),
    {
        AbortState { aborted: true, waiters: Vec::new() }
    }

    /// Whether the abort was signalled.
    pub fn is_aborted(&self) -> (r: bool)
        ensures
            r == self@.aborted,
    {
        self.aborted
    }

    /// Signals the abort, returning every waiter registered so far, in
    /// order, each to be woken exactly once.  A second call is a no-op
    /// and returns no waiter.
    pub fn abort(&mut self) -> (woken: Vec<W>)
        ensures
            (final(self)@, woken@) == spec_abort(old(self)@),
    {
        self.aborted = true;
        let mut woken: Vec<W> = Vec::new();
        core::mem::swap(&mut woken, &mut self.waiters);
        woken
    }

    /// Registers a waiter directly, for callers that suspend on the
    /// flag itself.  Must not be called once the flag is set; such a
    /// caller observes the abort through [`AbortState::is_aborted`]
    /// instead of blocking.
    pub fn register(&mut self, w: W)
        requires
            !old(self)@.aborted,
        ensures
            !final(self)@.aborted,
            final(self)@.waiters == old(self)@.waiters.push(w),
    {
        self.waiters.push(w);
    }
}

/// Per-future half of an abortable pairing: remembers whether this
/// future already registered itself as a waiter of the shared flag.
pub struct AbortGate {
    awaited: bool,
}

impl AbortGate {
    /// Whether this future has registered itself as a waiter.
    pub closed spec fn awaited(&self) -> bool {
        self.awaited
    }

    /// Creates the state for a freshly wrapped future.
    pub fn new() -> (g: Self)
        ensures
            !g.awaited(),
    {
        AbortGate { awaited: false }
    }

    /// The poll decision of an abortable future: if the shared flag is
    /// set, resolve to the aborted outcome without touching the wrapped
    /// future; otherwise register `w` as a waiter on the first poll and
    /// tell the caller to poll the wrapped future.
    pub fn on_poll<W>(&mut self, state: &mut AbortState<W>, w: W) -> (d: GateStep)
        ensures
            (final(state)@, final(self).awaited(), d) == spec_gate_poll(
                old(state)@,
                old(self).awaited(),
                w,
            ),
    {
        if state.is_aborted() {
            GateStep::Aborted
        } else {
            if !self.awaited {
                state.register(w);
                self.awaited = true;
            }
            GateStep::PollInner
        }
    }
}

/// Law: abort is idempotent.  Signalling twice leaves the same state as
/// signalling once, the first call hands back every waiter registered
/// before either call exactly once, and the second call hands back
/// none.
pub proof fn lemma_abort_idempotent<W>(m: AbortModel<W>)
    ensures
        spec_abort(spec_abort(m).0).0 == spec_abort(m).0,
        spec_abort(m).1 == m.waiters,
        spec_abort(spec_abort(m).0).1 == Seq::<W>::empty(),
{
}

/// Law: no wake is lost and none is duplicated.  For either order of
/// one gate poll and one abort: if that poll comes first, it appends
/// its waiter once at the end of the list, and the abort hands the
/// whole list back; if the abort happens first, that poll resolves to
/// the aborted outcome at once and never registers, so the abort hands
/// back only the waiters registered before it.
pub proof fn lemma_abort_race_freedom<W>(m: AbortModel<W>, w: W)
    requires
        !m.aborted,
    ensures
        ({
            let registered = spec_gate_poll(m, false, w).0;
            spec_abort(registered).1 == m.waiters.push(w)
        }),
        ({
            let after_abort = spec_abort(m).0;
            spec_gate_poll(after_abort, false, w).2 == GateStep::Aborted
                && spec_gate_poll(after_abort, false, w).0 == after_abort
        }),
{
}

} // verus!
