//! Condition variable, bound to the mutex's guard type.
//!
//! A generation counter is incremented on every notification, and an
//! advisory waiter count lets a notifier skip all work when nobody waits.
//! A waiter samples the generation *while still holding its mutex guard*,
//! releases the guard, and then blocks only while the generation still
//! equals its sample. Any notifier mutates the awaited state under that
//! same mutex before notifying, so a change the waiter has not yet seen
//! implies a generation bump after the waiter's sample — the wakeup cannot
//! be lost.
//!
//! `RawCondvar` runs the protocol over real atomic words; waiting is a
//! blocking step over the wait-on-address substrate, after which the caller
//! re-acquires the mutex and re-checks its condition (wakeups may be
//! spurious). `Condvar` is the owned form with exact contracts: waiting is
//! split into [`Condvar::wait_begin`], which samples the generation and
//! releases the guard, and [`Condvar::wait_complete`], enabled exactly when
//! the generation has moved past the sample.
//!
//! [`CondvarSys`] is the interleaving model of the protocol for one waiter
//! and one notifier, one atomic step at a time. Its invariant — the waiter
//! is never asleep past a notification — is proved to hold in every state
//! of every execution ([`lemma_condvar_trace_no_lost_wakeup`]): a
//! notification issued after the waiter's sample either wakes it or diverts
//! its sleep, so no round of the scenario can deadlock.

use vstd::prelude::*;
use core::sync::atomic::{AtomicU32, AtomicUsize, Ordering};
use crate::mutex::{Mutex, MutexGuard, RawMutex};

verus! {

/// The notification counters of the protocol, without contracts: other
/// threads race on these words. One blocked-wait episode is
/// [`RawCondvar::wait_step`]; the caller re-acquires the mutex through the
/// raw mutex's steps and re-checks its condition.
pub struct RawCondvar {
    counter: AtomicU32,
    num_waiters: AtomicUsize,
}

impl RawCondvar {
    /// A fresh condition variable: generation 0, no waiters.
    pub fn new() -> RawCondvar {
        RawCondvar { counter: AtomicU32::new(0), num_waiters: AtomicUsize::new(0) }
    }

    /// When at least one waiter is registered, bump the generation (wrapping)
    /// and wake one blocked thread; otherwise do nothing — a waiter that
    /// arrives later samples the fresh generation anyway.
    pub fn notify_one(&self) {
        if self.num_waiters.load(Ordering::Relaxed) > 0 {
            self.counter.fetch_add(1, Ordering::Relaxed);
            crate::futex::wake_one(&self.counter);
        }
    }

    /// As [`RawCondvar::notify_one`], but wakes every blocked thread.
    pub fn notify_all(&self) {
        if self.num_waiters.load(Ordering::Relaxed) > 0 {
            self.counter.fetch_add(1, Ordering::Relaxed);
            crate::futex::wake_all(&self.counter);
        }
    }

    /// One blocked-wait episode: register as a waiter, sample the generation
    /// while the mutex is still held, release the mutex so a notifier can
    /// proceed, block while the generation equals the sample, and deregister.
    /// Returns with the mutex released.
    pub fn wait_step(&self, mutex: &RawMutex) {
        self.num_waiters.fetch_add(1, Ordering::Relaxed);
        let generation = self.counter.load(Ordering::Relaxed);
        mutex.unlock();
        crate::futex::wait(&self.counter, generation);
        self.num_waiters.fetch_sub(1, Ordering::Relaxed);
    }
}

/// The generation a waiter sampled before it released its guard. Its view
/// is that sample.
pub struct WaitToken {
    generation: u32,
}

impl View for WaitToken {
    type V = u32;

    closed spec fn view(&self) -> u32 {
        self.generation
    }
}

/// The generation counter after one notification: one step of a wrapping
/// 32-bit counter, which never maps a value to itself.
pub open spec fn next_generation(c: u32) -> u32 {
    if c == u32::MAX {
        0
    } else {
        (c + 1) as u32
    }
}

/// The owned condition variable: a generation counter plus the advisory
/// count of waiters between `wait_begin` and `wait_complete`.
pub struct Condvar {
    counter: u32,
    num_waiters: usize,
}

impl Condvar {
    /// The current generation.
    pub closed spec fn generation(self) -> u32 {
        self.counter
    }

    /// How many waiters stand between `wait_begin` and `wait_complete`.
    pub closed spec fn waiters(self) -> usize {
        self.num_waiters
    }

    /// The notification transition: with a waiter registered the generation
    /// moves on; with none, nothing happens.
    pub closed spec fn spec_notify(cv: Condvar) -> Condvar {
        if cv.num_waiters > 0 {
            Condvar { counter: next_generation(cv.counter), num_waiters: cv.num_waiters }
        } else {
            cv
        }
    }

    /// A fresh condition variable: generation 0, no waiters.
    pub fn new() -> (cv: Condvar)
        ensures
            cv.generation() == 0,
            cv.waiters() == 0,
    {
        Condvar { counter: 0, num_waiters: 0 }
    }

    /// When at least one waiter is registered, bump the generation
    /// (wrapping) — in the threaded embedding this also wakes one blocked
    /// thread; otherwise do nothing.
    pub fn notify_one(&mut self)
        ensures
            *final(self) == Self::spec_notify(*old(self)),
            old(self).waiters() > 0 ==> final(self).generation() == next_generation(
                old(self).generation(),
            ),
            old(self).waiters() == 0 ==> *final(self) == *old(self),
            final(self).waiters() == old(self).waiters(),
    {
        if self.num_waiters > 0 {
            self.counter = self.counter.wrapping_add(1);
        }
    }

    /// The same transition as [`Condvar::notify_one`]; in the threaded
    /// embedding every blocked thread is woken instead of one.
    pub fn notify_all(&mut self)
        ensures
            *final(self) == Self::spec_notify(*old(self)),
            old(self).waiters() > 0 ==> final(self).generation() == next_generation(
                old(self).generation(),
            ),
            old(self).waiters() == 0 ==> *final(self) == *old(self),
            final(self).waiters() == old(self).waiters(),
    {
        if self.num_waiters > 0 {
            self.counter = self.counter.wrapping_add(1);
        }
    }

    /// Begins a wait: registers the caller as a waiter, samples the current
    /// generation into the returned token, and only then surrenders the
    /// guard, releasing the mutex. Anything a notifier changes under the
    /// mutex after this point comes with a later generation.
    pub fn wait_begin<T>(&mut self, mutex: &mut Mutex<T>, guard: MutexGuard<T>) -> (t: WaitToken)
        requires
            old(self).waiters() < usize::MAX,
            old(mutex).wf(),
            old(mutex).is_locked(),
        ensures
            final(self).generation() == old(self).generation(),
            final(self).waiters() == old(self).waiters() + 1,
            t@ == old(self).generation(),
            *final(mutex) == Mutex::spec_unlock(*old(mutex), guard@),
            final(mutex).wf(),
            !final(mutex).is_locked(),
            final(mutex)@ == Some(guard@),
    {
        self.num_waiters = self.num_waiters + 1;
        let generation = self.counter;
        mutex.unlock(guard);
        WaitToken { generation }
    }

    /// Completes a wait after a wakeup: enabled exactly when the generation
    /// has moved past the token's sample — the condition the blocked thread
    /// waits on. Deregisters the waiter and re-acquires the mutex, handing
    /// the caller a fresh guard to re-check its condition under.
    pub fn wait_complete<T>(&mut self, mutex: &mut Mutex<T>, token: WaitToken) -> (g: MutexGuard<
        T,
    >)
        requires
            old(self).generation() != token@,
            old(self).waiters() >= 1,
            old(mutex).wf(),
            !old(mutex).is_locked(),
        ensures
            final(self).generation() == old(self).generation(),
            final(self).waiters() == old(self).waiters() - 1,
            final(mutex).wf(),
            final(mutex).is_locked(),
            old(mutex)@ == Some(g@),
    {
        self.num_waiters = self.num_waiters - 1;
        mutex.lock()
    }
}

/// Where a single waiter stands in the wait protocol at an instant: not
/// waiting; registered — waiter count raised, generation sampled, guard
/// released — but not yet asleep; asleep on its sample; or woken.
pub enum WaiterPhase {
    Idle,
    Registered { sampled: u32 },
    Asleep { sampled: u32 },
    Woken,
}

/// The one-waiter system at an instant: the generation counter and the
/// waiter's phase. This is the interleaving model of the wait/notify
/// protocol, one atomic step at a time, for the scenario of one waiter and
/// one notifier.
pub struct CondvarSys {
    pub counter: u32,
    pub waiter: WaiterPhase,
}

/// The waiter registers: raises the waiter count and samples the current
/// generation, all before releasing its guard.
pub open spec fn step_register(s: CondvarSys, s2: CondvarSys) -> bool {
    &&& s.waiter is Idle
    &&& s2.counter == s.counter
    &&& s2.waiter == WaiterPhase::Registered { sampled: s.counter }
}

/// The waiter goes to sleep — but the sleep itself checks the word: it only
/// falls asleep while the generation still equals its sample.
pub open spec fn step_sleep(s: CondvarSys, s2: CondvarSys) -> bool {
    &&& s.waiter matches WaiterPhase::Registered { sampled } && s.counter == sampled
    &&& s2.counter == s.counter
    &&& s2.waiter == WaiterPhase::Asleep { sampled: s.counter }
}

/// The waiter's sleep attempt finds the generation already moved past its
/// sample — a notification has intervened — and falls straight through
/// awake.
pub open spec fn step_sleep_skip(s: CondvarSys, s2: CondvarSys) -> bool {
    &&& s.waiter matches WaiterPhase::Registered { sampled } && s.counter != sampled
    &&& s2.counter == s.counter
    &&& s2.waiter == WaiterPhase::Woken
}

/// The notifier notifies: the waiter is registered, so the waiter count is
/// positive and the notification is not skipped — the generation moves on,
/// and the wake reaches the waiter if it is asleep.
pub open spec fn step_notify(s: CondvarSys, s2: CondvarSys) -> bool {
    &&& !(s.waiter is Idle)
    &&& s2.counter == next_generation(s.counter)
    &&& s2.waiter == if s.waiter is Asleep {
        WaiterPhase::Woken
    } else {
        s.waiter
    }
}

/// The woken waiter deregisters and goes back to re-acquire the mutex.
pub open spec fn step_complete(s: CondvarSys, s2: CondvarSys) -> bool {
    &&& s.waiter is Woken
    &&& s2.counter == s.counter
    &&& s2.waiter == WaiterPhase::Idle
}

/// One atomic step of the protocol, by either party.
pub open spec fn condvar_step(s: CondvarSys, s2: CondvarSys) -> bool {
    step_register(s, s2) || step_sleep(s, s2) || step_sleep_skip(s, s2) || step_notify(s, s2)
        || step_complete(s, s2)
}

/// The inductive invariant: the waiter is never asleep past a notification —
/// whenever it sleeps, the generation still equals its sample, so every
/// notification since its sample has either already diverted its sleep or
/// woken it.
pub open spec fn condvar_inv(s: CondvarSys) -> bool {
    s.waiter matches WaiterPhase::Asleep { sampled } ==> s.counter == sampled
}

/// Whether the step from the `k`th state of a trace to the next is one
/// atomic protocol step.
pub open spec fn condvar_trace_step_at(trace: Seq<CondvarSys>, k: int) -> bool {
    condvar_step(trace[k], trace[k + 1])
}

/// Whether the step from the `k`th state of a trace to the next is a
/// notification.
pub open spec fn condvar_notify_at(trace: Seq<CondvarSys>, k: int) -> bool {
    step_notify(trace[k], trace[k + 1])
}

/// No lost wakeup, stated over executions: in any interleaving of one
/// waiter's register-sleep-complete steps with one notifier's
/// notifications, the waiter is never found asleep after a notification
/// that followed its sample — the sleep that would have missed it falls
/// through awake instead, and a sleep already under way is woken by the
/// notification itself. Every state of every execution satisfies the
/// invariant, so no round of the scenario can deadlock.
pub proof fn lemma_condvar_trace_no_lost_wakeup(trace: Seq<CondvarSys>)
    requires
        trace.len() > 0,
        trace[0].waiter is Idle,
        forall|k: int| 0 <= k < trace.len() - 1 ==> #[trigger] condvar_trace_step_at(trace, k),
    ensures
        forall|k: int| 0 <= k < trace.len() ==> #[trigger] condvar_inv(trace[k]),
        forall|k: int|
            0 <= k < trace.len() - 1 && #[trigger] condvar_notify_at(trace, k) ==> !(trace[k
                + 1].waiter is Asleep),
    decreases trace.len(),
{
    if trace.len() > 1 {
        let prefix = trace.drop_last();
        assert forall|k: int| 0 <= k < prefix.len() - 1 implies #[trigger] condvar_trace_step_at(
            prefix,
            k,
        ) by {
            assert(condvar_trace_step_at(trace, k));
            assert(prefix[k] == trace[k]);
            assert(prefix[k + 1] == trace[k + 1]);
        }
        lemma_condvar_trace_no_lost_wakeup(prefix);
        assert forall|k: int| 0 <= k < trace.len() implies #[trigger] condvar_inv(trace[k]) by {
            if k < trace.len() - 1 {
                assert(condvar_inv(prefix[k]));
                assert(prefix[k] == trace[k]);
            } else {
                assert(condvar_inv(prefix[k - 1]));
                assert(prefix[k - 1] == trace[k - 1]);
                assert(condvar_trace_step_at(trace, k - 1));
            }
        }
    }
    assert forall|k: int|
        0 <= k < trace.len() - 1 && #[trigger] condvar_notify_at(trace, k) implies !(trace[k
            + 1].waiter is Asleep) by {
        assert(condvar_inv(trace[k]));
    }
}

/// No lost wakeup: a waiter that sampled generation `t` and then released
/// its guard is woken by any later notification — notifying with a waiter
/// registered always moves the generation away from every earlier sample of
/// its current value, so the waiter's wake condition (generation differs
/// from its sample) holds afterwards.
pub proof fn lemma_no_lost_wakeup(cv: Condvar, t: WaitToken)
    requires
        cv.waiters() >= 1,
        t@ == cv.generation(),
    ensures
        Condvar::spec_notify(cv).generation() != t@,
        Condvar::spec_notify(cv).waiters() == cv.waiters(),
{
}

} // verus!
