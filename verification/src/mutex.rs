//! A naive spinlock guarding the data it contains, and the bounded-retry
//! acquisition the exception path uses to avoid deadlocking against itself.
//!
//! A fault may be taken while the faulting core already holds the lock, so
//! exception-context code must never wait on it unboundedly: after a bounded
//! number of tries it takes the data over non-cooperatively.

use vstd::prelude::*;

verus! {

/// A spinlock and the data it guards. A zero count means unlocked.
pub struct SpinMutex<T> {
    pub lock_count: u32,
    pub inner: T,
}

/// How a contended acquisition ended: cleanly, or by forced takeover after
/// the retries ran out.
#[derive(Clone, Copy, Debug, PartialEq, Eq, Structural)]
pub enum Acquisition {
    Acquired,
    Forced,
}

impl<T> SpinMutex<T> {
    /// Whether the lock is held.
    pub open spec fn is_locked(self) -> bool {
        self.lock_count != 0
    }

    /// A fresh, unlocked mutex around `inner`.
    pub fn new(inner: T) -> (r: SpinMutex<T>)
        ensures
            !r.is_locked(),
            r.inner == inner,
    {
        SpinMutex { lock_count: 0, inner }
    }

    /// Attempt to take the lock once: succeeds exactly when it was free, and
    /// never touches the guarded data.
    pub fn try_lock(&mut self) -> (r: bool)
        ensures
            r == !old(self).is_locked(),
            final(self).inner == old(self).inner,
            r ==> final(self).lock_count == 1,
            !r ==> *final(self) == *old(self),
    {
        if self.lock_count == 0 {
            self.lock_count = 1;
            true
        } else {
            false
        }
    }

    /// Take the lock. Waiting out another holder cannot be expressed on an
    /// owned value, so the lock must be free; contended acquisition in
    /// exception context goes through `lock_with_retries` instead.
    pub fn lock(&mut self)
        requires
            !old(self).is_locked(),
        ensures
            final(self).lock_count == 1,
            final(self).inner == old(self).inner,
    {
        self.lock_count = 1;
    }

    /// Release the lock, unconditionally storing zero, as the hardware race
    /// around reservation instructions demands.
    pub fn unlock(&mut self)
        ensures
            !final(self).is_locked(),
            final(self).inner == old(self).inner,
    {
        self.lock_count = 0;
    }

    /// Reach the guarded data without taking or testing the lock: the forced
    /// fallback of the diagnostic path. The lock state is left exactly as it
    /// was.
    pub fn get_mut_unchecked(&mut self) -> (r: &mut T)
        ensures
            *r == old(self).inner,
            final(self).lock_count == old(self).lock_count,
            final(self).inner == *final(r),
    {
        &mut self.inner
    }
}

/// Acquire with a bounded number of short-delay retries, then give up and
/// report that the caller must proceed by forced takeover. Never waits
/// unboundedly, so a core that faulted while itself holding the lock still
/// gets through: that is the diagnostic path's no-deadlock guarantee. The
/// fixed delay between retries runs against the caller's hardware timebase
/// and is not part of the decision.
pub fn lock_with_retries<T>(m: &mut SpinMutex<T>, max_tries: u64) -> (r: Acquisition)
    ensures
        r == Acquisition::Acquired <==> !old(m).is_locked(),
        final(m).inner == old(m).inner,
        r == Acquisition::Acquired ==> final(m).lock_count == 1,
        r == Acquisition::Forced ==> *final(m) == *old(m),
{
    if m.try_lock() {
        return Acquisition::Acquired;
    }
    let mut tries: u64 = 0;
    while tries < max_tries
        invariant
            *m == *old(m),
            old(m).is_locked(),
            tries <= max_tries,
        decreases max_tries - tries,
    {
        if m.try_lock() {
            return Acquisition::Acquired;
        }
        tries = tries + 1;
    }
    Acquisition::Forced
}

} // verus!
