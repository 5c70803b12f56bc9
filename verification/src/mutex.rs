//! Mutex for cooperative polling contexts: a locked flag, the protected
//! value and a first-in, first-out queue of waiters.
//!
//! The lock is modelled as one explicitly owned [`Mutex`] core.
//! Acquiring it moves the protected value into the [`MutexGuard`], so
//! at most one guard can be outstanding; releasing the guard puts the
//! value back and hands out the front waiter to be woken, so no pending
//! locker is skipped forever.

use vstd::prelude::*;

verus! {

/// Mathematical state of a mutex.
pub ghost struct MutexModel<T, W> {
    /// Whether a guard is outstanding.
    pub locked: bool,
    /// The protected value while no guard is outstanding.
    pub value: Option<T>,
    /// Pending lockers, front first.
    pub waiters: Seq<W>,
}

/// Mutual exclusion usable from a cooperative polling context.  The
/// guard owns the protected value for as long as it is held.
pub struct Mutex<T, W> {
    value: Option<T>,
    waiters: Vec<W>,
}

/// Exclusive access to the protected value of a [`Mutex`], obtained
/// from `try_lock` or `lock_poll` and given back with `unlock` on the
/// same mutex.
pub struct MutexGuard<T> {
    value: T,
}

impl<T, W> View for Mutex<T, W> {
    type V = MutexModel<T, W>;

    closed spec fn view(&self) -> MutexModel<T, W> {
        MutexModel { locked: self.value is None, value: self.value, waiters: self.waiters@ }
    }
}

/// Transition for a non-blocking lock attempt: while no guard is
/// outstanding the protected value moves out into the new guard;
/// otherwise nothing changes and no guard is produced.
pub open spec fn spec_try_lock<T, W>(m: MutexModel<T, W>) -> (MutexModel<T, W>, Option<T>) {
    if !m.locked {
        (MutexModel { locked: true, value: None, ..m }, m.value)
    } else {
        (m, None)
    }
}

/// Transition for releasing a guard: the protected value returns, and
/// the front waiter, if any, is handed back to be woken — exactly one
/// wake per release, so no waiter is forgotten and none is woken twice.
pub open spec fn spec_unlock<T, W>(m: MutexModel<T, W>, t: T) -> (MutexModel<T, W>, Option<W>) {
    if m.waiters.len() > 0 {
        (
            MutexModel { locked: false, value: Some(t), waiters: m.waiters.drop_first() },
            Some(m.waiters[0]),
        )
    } else {
        (MutexModel { locked: false, value: Some(t), waiters: m.waiters }, None)
    }
}

/// Transition for a suspending lock poll: acquire like `try_lock` when
/// free, otherwise append the waiter at the back of the queue.
pub open spec fn spec_lock_poll<T, W>(m: MutexModel<T, W>, w: W) -> (MutexModel<T, W>, Option<
    T,
>) {
    if !m.locked {
        spec_try_lock(m)
    } else {
        (MutexModel { waiters: m.waiters.push(w), ..m }, None)
    }
}

impl<T, W> Mutex<T, W> {
    /// Creates an unlocked mutex protecting `t`, with no waiters.
    pub fn new(t: T) -> (m: Self)
        ensures
            !m@.locked,
            m@.value == Some(t),
            m@.waiters == Seq::<W>::empty(),
    {
        Mutex { value: Some(t), waiters: Vec::new() }
    }

    /// Whether a guard is currently outstanding.
    pub fn is_locked(&self) -> (r: bool)
        ensures
            r == self@.locked,
    {
        self.value.is_none()
    }

    /// Attempts to acquire the lock without suspending.  Of any two
    /// attempts, at most one can succeed before the guard is given
    /// back.
    pub fn try_lock(&mut self) -> (r: Option<MutexGuard<T>>)
        ensures
            final(self)@ == spec_try_lock(old(self)@).0,
            r matches Some(g) ==> Some(g.value_model()) == spec_try_lock(old(self)@).1,
            (r is Some) == !old(self)@.locked,
    {
        match self.value.take() {
            Some(v) => Some(MutexGuard { value: v }),
            None => None,
        }
    }

    /// One poll of the suspending lock future: acquire the lock if it
    /// is free, otherwise queue `w` behind every earlier waiter and
    /// stay pending.
    pub fn lock_poll(&mut self, w: W) -> (r: Option<MutexGuard<T>>)
        ensures
            final(self)@ == spec_lock_poll(old(self)@, w).0,
            r matches Some(g) ==> Some(g.value_model()) == spec_lock_poll(old(self)@, w).1,
            (r is Some) == !old(self)@.locked,
    {
        match self.try_lock() {
            Some(g) => Some(g),
            None => {
                self.waiters.push(w);
                None
            },
        }
    }

    /// Releases a guard obtained from this mutex, putting the protected
    /// value back and returning the front waiter the caller must wake,
    /// if any.
    pub fn unlock(&mut self, g: MutexGuard<T>) -> (wake: Option<W>)
        requires
            old(self)@.locked,
        ensures
            (final(self)@, wake) == spec_unlock(old(self)@, g.value_model()),
    {
        self.value = Some(g.into_inner());
        if self.waiters.len() > 0 {
            Some(self.waiters.remove(0))
        } else {
            None
        }
    }
}

impl<T> MutexGuard<T> {
    /// The protected value this guard gives access to.
    pub closed spec fn value_model(&self) -> T {
        self.value
    }

    /// Reads the protected value.
    pub fn get(&self) -> (r: &T)
        ensures
            r == self.value_model(),
    {
        &self.value
    }

    /// Borrows the protected value for writing.
    pub fn get_mut(&mut self) -> (r: &mut T)
        ensures
            *r == old(self).value_model(),
            final(self).value_model() == *final(r),
    {
        &mut self.value
    }

    /// Replaces the protected value.
    pub fn set(&mut self, t: T)
        ensures
            final(self).value_model() == t,
    {
        self.value = t;
    }

    /// Consumes the guard without releasing the lock, yielding the
    /// protected value; the mutex then stays locked for good.
    pub fn into_inner(self) -> (r: T)
        ensures
            r == self.value_model(),
    {
        self.value
    }
}

/// The waiter queue after `k` releases have each woken and removed the
/// then-front waiter.
pub open spec fn spec_waiters_after<T, W>(m: MutexModel<T, W>, k: int) -> MutexModel<T, W> {
    MutexModel { waiters: m.waiters.subrange(k, m.waiters.len() as int), ..m }
}

/// Law: mutual exclusion.  Of two lock attempts in either order, at
/// most one succeeds: an attempt on a locked mutex fails and changes
/// nothing, and a successful attempt leaves the mutex locked, so the
/// other attempt can succeed only after the guard was given back.
pub proof fn lemma_mutex_mutual_exclusion<T, W>(m: MutexModel<T, W>, t: T)
    requires
        !m.locked,
    ensures
        spec_try_lock(m).0.locked,
        spec_try_lock(spec_try_lock(m).0).1 is None,
        spec_try_lock(spec_try_lock(m).0).0 == spec_try_lock(m).0,
        !spec_unlock(spec_try_lock(m).0, t).0.locked,
{
}

/// Law: no pending locker starves.  With the queue as it stands, the
/// `i`-th release hands back exactly the `i`-th queued waiter, so every
/// waiter is woken exactly once, in queue order, as long as the holder
/// keeps releasing.
pub proof fn lemma_mutex_fifo_wake<T, W>(m: MutexModel<T, W>, t: T, i: int)
    requires
        m.locked,
        0 <= i < m.waiters.len(),
    ensures
        spec_unlock(spec_waiters_after(m, i), t).1 == Some(m.waiters[i]),
        spec_unlock(spec_waiters_after(m, i), t).0.waiters == spec_waiters_after(
            m,
            i + 1,
        ).waiters,
{
    let mi = spec_waiters_after(m, i);
    assert(mi.waiters[0] == m.waiters[i]);
    assert(mi.waiters.drop_first() =~= spec_waiters_after(m, i + 1).waiters);
}

} // verus!
