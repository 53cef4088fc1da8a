//! Spin lock: the minimal exclusive lock, one boolean of state.
//!
//! Acquisition is a test-and-set (acquire) that in the threaded embedding
//! retries in a busy loop — there is no blocking substrate here, which is
//! why the futex-based mutex subsumes it for anything but the shortest
//! critical sections. The owned form below makes each transition exact: a
//! [`Guard`] witnesses one acquisition, and a second acquisition is not
//! enabled until the guard is surrendered.

use vstd::prelude::*;

verus! {

/// The token of one acquisition of a [`SpinLock`]; minted only by
/// [`SpinLock::lock`].
pub struct Guard {
    token: (),
}

/// The minimal exclusive lock: a single locked flag.
pub struct SpinLock {
    locked: bool,
}

impl SpinLock {
    /// Whether the lock is held.
    pub closed spec fn is_locked(self) -> bool {
        self.locked
    }

    /// A fresh, unlocked lock.
    pub fn new() -> (l: SpinLock)
        ensures
            !l.is_locked(),
    {
        SpinLock { locked: false }
    }

    /// Acquires the lock: the flag moves from clear to set (a test-and-set
    /// with acquire ordering in the threaded embedding, which spins while
    /// the flag is set; a holder that has not released would spin forever,
    /// so that state is excluded here).
    pub fn lock(&mut self) -> (g: Guard)
        requires
            !old(self).is_locked(),
        ensures
            final(self).is_locked(),
    {
        self.locked = true;
        Guard { token: () }
    }

    /// Releases the lock, surrendering the guard: the flag is cleared
    /// (release ordering in the threaded embedding).
    pub fn unlock(&mut self, guard: Guard)
        requires
            old(self).is_locked(),
        ensures
            !final(self).is_locked(),
    {
        let _ = guard;
        self.locked = false;
    }

    /// Whether the lock is currently held.
    pub fn locked(&self) -> (r: bool)
        ensures
            r == self.is_locked(),
    {
        self.locked
    }
}

} // verus!
