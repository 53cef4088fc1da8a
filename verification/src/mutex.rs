//! Mutual-exclusion lock.
//!
//! The lock state is one 32-bit word with three values: 0 unlocked, 1
//! locked with no waiters, 2 locked with waiters present. `RawMutex` runs
//! that protocol over a real atomic word: a compare-and-swap fast path, a
//! bounded spin, and a swap-to-2-then-block step over the wait-on-address
//! substrate. Nothing can be stated about a word other threads race on, so
//! the raw steps carry no value contracts; an embedding composes them into
//! a blocking acquire.
//!
//! `Mutex<T>` is the owned form: it holds the protected value together with
//! the state word, and hands the value out through a [`MutexGuard`] on
//! `lock` and takes it back on `unlock`. Every transition is exact: the
//! guard holds precisely the protected value, the value exists in exactly
//! one place at any time, and a lock can only be granted while no guard is
//! outstanding — which is the mutual-exclusion discipline itself.
//!
//! [`MutexSys`] is the interleaving model of the word protocol: any number
//! of threads, each taking one atomic step at a time, each critical section
//! incrementing a shared counter by a plain load followed by a store. Its
//! invariant — at most one thread in the critical section, none while the
//! word reads 0, and the counter exactly the number of completed increments
//! — is proved to hold in every state of every execution
//! ([`lemma_mutex_trace_mutual_exclusion`]); once N threads have completed
//! K rounds each, the counter reads exactly N times K
//! ([`lemma_mutex_trace_counter_total`]). That is mutual exclusion for N
//! threads proper: lose it anywhere and an interleaved load-store pair
//! could drop an update.

use vstd::prelude::*;
use core::sync::atomic::{AtomicU32, Ordering};

verus! {

/// The word value meaning "unlocked".
pub const UNLOCKED: u32 = 0;

/// The word value meaning "locked, no thread is waiting".
pub const LOCKED: u32 = 1;

/// The word value meaning "locked, and a thread is or was blocked".
pub const CONTENDED: u32 = 2;

/// The state word of the mutual-exclusion protocol, without a protected
/// value. Other threads may hold references to the same word, so no
/// contract can pin the word's value; what is verified is that each step
/// performs exactly its own atomic accesses and cannot panic.
pub struct RawMutex {
    state: AtomicU32,
}

impl RawMutex {
    /// A fresh, unlocked word.
    pub fn new() -> RawMutex {
        RawMutex { state: AtomicU32::new(UNLOCKED) }
    }

    /// The fast path: one compare-and-swap of 0 to 1, acquire on success.
    /// Returns whether the lock was taken.
    pub fn try_lock(&self) -> bool {
        self.state.compare_exchange(UNLOCKED, LOCKED, Ordering::Acquire, Ordering::Relaxed).is_ok()
    }

    /// Spins for at most 100 iterations while the word reads 1 — the holder
    /// may release a short critical section soon, and spinning is cheaper
    /// than one sleep-plus-wake round trip. Returns early once the word
    /// leaves 1.
    pub fn spin(&self) {
        let mut budget: u32 = 100;
        while budget > 0
            invariant
                budget <= 100,
            decreases budget,
        {
            if self.state.load(Ordering::Relaxed) != LOCKED {
                return;
            }
            budget = budget - 1;
            core::hint::spin_loop();
        }
    }

    /// One step of the contended path: swap the word to 2 (acquire) and own
    /// the lock exactly when the swapped-out value was 0; otherwise block on
    /// the word while it stays 2 and report failure, after which the caller
    /// retries. Marking the word 2 even on failure is what obliges the next
    /// release to wake somebody.
    pub fn lock_step(&self) -> bool {
        if self.state.swap(CONTENDED, Ordering::Acquire) == UNLOCKED {
            true
        } else {
            crate::futex::wait(&self.state, CONTENDED);
            false
        }
    }

    /// Release: store 0 with release ordering; when the swapped-out value
    /// was 2 a thread is or was blocked, so wake exactly one.
    pub fn unlock(&self) {
        if self.state.swap(UNLOCKED, Ordering::Release) == CONTENDED {
            crate::futex::wake_one(&self.state);
        }
    }
}

/// The token of one acquisition of a [`Mutex`]: it owns the protected value
/// for the duration of the critical section. Its view is that value.
pub struct MutexGuard<T> {
    value: T,
}

impl<T> View for MutexGuard<T> {
    type V = T;

    closed spec fn view(&self) -> T {
        self.value
    }
}

impl<T> MutexGuard<T> {
    /// Read access to the protected value.
    pub fn get(&self) -> (r: &T)
        ensures
            *r == self@,
    {
        &self.value
    }

    /// Overwrites the protected value.
    pub fn set(&mut self, value: T)
        ensures
            final(self)@ == value,
    {
        self.value = value;
    }

    /// Swaps the protected value for `value`, returning the old one.
    pub fn replace(&mut self, value: T) -> (r: T)
        ensures
            r == old(self)@,
            final(self)@ == value,
    {
        let mut value = value;
        core::mem::swap(&mut self.value, &mut value);
        value
    }
}

/// An exclusive lock over a protected value. Its view is `Some(value)`
/// while the value is at rest inside the lock and `None` while a guard owns
/// it, so the value exists in exactly one place at any instant.
pub struct Mutex<T> {
    state: u32,
    value: Option<T>,
}

impl<T> View for Mutex<T> {
    type V = Option<T>;

    closed spec fn view(&self) -> Option<T> {
        self.value
    }
}

impl<T> Mutex<T> {
    /// The state word is one of the three protocol values, and the lock
    /// holds the value exactly while the word reads unlocked.
    pub closed spec fn wf(self) -> bool {
        self.state <= CONTENDED && (self.value is Some <==> self.state == UNLOCKED)
    }

    /// Whether the word reads locked (with or without waiters).
    pub closed spec fn is_locked(self) -> bool {
        self.state != UNLOCKED
    }

    /// The lock transition: the word becomes 1 and the protected value
    /// moves out to the caller.
    pub closed spec fn spec_lock(m: Mutex<T>) -> (Mutex<T>, T) {
        (Mutex { state: LOCKED, value: None }, m.value.unwrap())
    }

    /// The unlock transition: the word becomes 0 and the guard's value
    /// moves back in.
    pub closed spec fn spec_unlock(m: Mutex<T>, value: T) -> Mutex<T> {
        Mutex { state: UNLOCKED, value: Some(value) }
    }

    /// A new, unlocked mutex protecting `value`.
    pub fn new(value: T) -> (m: Mutex<T>)
        ensures
            m.wf(),
            !m.is_locked(),
            m@ == Some(value),
    {
        Mutex { state: UNLOCKED, value: Some(value) }
    }

    /// Whether the lock is currently held.
    pub fn locked(&self) -> (r: bool)
        requires
            self.wf(),
        ensures
            r == self.is_locked(),
    {
        self.state != UNLOCKED
    }

    /// Acquires the lock: the word moves 0 to 1 and the protected value
    /// moves into the returned guard. A holder that has not released cannot
    /// acquire again — in the threaded embedding it would block forever, so
    /// that state is excluded here.
    pub fn lock(&mut self) -> (g: MutexGuard<T>)
        requires
            old(self).wf(),
            !old(self).is_locked(),
        ensures
            final(self).wf(),
            final(self).is_locked(),
            final(self)@ is None,
            old(self)@ == Some(g@),
            (*final(self), g@) == Self::spec_lock(*old(self)),
    {
        let value = self.value.take();
        self.state = LOCKED;
        MutexGuard { value: value.unwrap() }
    }

    /// Releases the lock, surrendering the guard: the word moves back to 0
    /// and the guard's value moves back behind the lock. In the threaded
    /// embedding a release from word 2 additionally wakes one waiter.
    pub fn unlock(&mut self, guard: MutexGuard<T>)
        requires
            old(self).wf(),
            old(self).is_locked(),
        ensures
            final(self).wf(),
            !final(self).is_locked(),
            final(self)@ == Some(guard@),
            *final(self) == Self::spec_unlock(*old(self), guard@),
    {
        self.state = UNLOCKED;
        self.value = Some(guard.value);
    }
}

/// One complete critical section over a counter: acquire, add one to the
/// protected value, release.
pub closed spec fn spec_increment_round(m: Mutex<u64>) -> Mutex<u64> {
    let (locked_m, v) = Mutex::spec_lock(m);
    Mutex::spec_unlock(locked_m, (v + 1) as u64)
}

/// `n` such critical sections one after another — the shape of any
/// interleaving of counter increments, since each runs under the lock.
pub closed spec fn spec_increment_rounds(m: Mutex<u64>, n: nat) -> Mutex<u64>
    decreases n,
{
    if n == 0 {
        m
    } else {
        spec_increment_rounds(spec_increment_round(m), (n - 1) as nat)
    }
}

/// Mutual exclusion, stated over the ownership model: while the lock is
/// held the protected value is owned by the guard alone — the lock's own
/// view is empty — and no further acquisition is possible until the guard
/// is surrendered.
pub proof fn lemma_mutual_exclusion<T>(m: Mutex<T>)
    requires
        m.wf(),
        !m.is_locked(),
        m@ is Some,
    ensures
        Mutex::spec_lock(m).0.wf(),
        Mutex::spec_lock(m).0.is_locked(),
        Mutex::spec_lock(m).0@ is None,
        Mutex::spec_lock(m).1 == m@.unwrap(),
        Mutex::spec_unlock(Mutex::spec_lock(m).0, Mutex::spec_lock(m).1) == m,
{
}

/// What one thread is doing to a mutex word at an instant: not holding it,
/// in the contended path (between a failed acquisition and its retry), or
/// inside the critical section — where it increments the shared counter in
/// two separate machine steps, a load and then a store, and `loaded`
/// remembers the value read between them.
pub enum MutexPhase {
    Idle,
    Blocked,
    Critical { loaded: Option<nat> },
}

/// One thread: its phase and how many increments it has completed.
pub struct MutexThread {
    pub phase: MutexPhase,
    pub done: nat,
}

/// A whole system at an instant: the shared lock word, the shared counter
/// the critical sections increment, and every thread's state. This is the
/// interleaving model of the word protocol itself, one atomic step at a
/// time; the increment is deliberately a plain load-then-store, not an
/// atomic one, so that only mutual exclusion can account for the total.
pub struct MutexSys {
    pub word: u32,
    pub counter: nat,
    pub threads: Seq<MutexThread>,
}

/// How many threads stand inside the critical section.
pub open spec fn critical_count(threads: Seq<MutexThread>) -> nat
    decreases threads.len(),
{
    if threads.len() == 0 {
        0
    } else {
        critical_count(threads.drop_last()) + if threads.last().phase is Critical {
            1nat
        } else {
            0nat
        }
    }
}

/// How many increments all threads together have completed.
pub open spec fn sum_done(threads: Seq<MutexThread>) -> nat
    decreases threads.len(),
{
    if threads.len() == 0 {
        0
    } else {
        sum_done(threads.drop_last()) + threads.last().done
    }
}

/// The starting state: word 0, counter 0, every thread idle with no
/// increment done.
pub open spec fn mutex_init(s: MutexSys) -> bool {
    &&& s.word == 0
    &&& s.counter == 0
    &&& forall|i: int|
        0 <= i < s.threads.len() ==> (#[trigger] s.threads[i]).phase is Idle && s.threads[i].done
            == 0
}

/// One thread's compare-and-swap of 0 to 1: from idle it either wins the
/// word — 0 becomes 1 and the thread enters the critical section — or finds
/// it taken and enters the contended path, leaving the word alone.
pub open spec fn step_try_acquire(s: MutexSys, s2: MutexSys, t: int) -> bool {
    &&& 0 <= t < s.threads.len()
    &&& s.threads[t].phase is Idle
    &&& s2.counter == s.counter
    &&& if s.word == 0 {
        s2.word == 1 && s2.threads == s.threads.update(
            t,
            MutexThread { phase: MutexPhase::Critical { loaded: None }, ..s.threads[t] },
        )
    } else {
        s2.word == s.word && s2.threads == s.threads.update(
            t,
            MutexThread { phase: MutexPhase::Blocked, ..s.threads[t] },
        )
    }
}

/// One thread's swap of the word to 2 on the contended path: it owns the
/// lock exactly when the swapped-out value was 0; otherwise it blocks with
/// the word marked contended and will retry.
pub open spec fn step_swap_acquire(s: MutexSys, s2: MutexSys, t: int) -> bool {
    &&& 0 <= t < s.threads.len()
    &&& s.threads[t].phase is Blocked
    &&& s2.word == 2
    &&& s2.counter == s.counter
    &&& if s.word == 0 {
        s2.threads == s.threads.update(
            t,
            MutexThread { phase: MutexPhase::Critical { loaded: None }, ..s.threads[t] },
        )
    } else {
        s2.threads == s.threads
    }
}

/// The first half of the critical section's increment: the holder reads the
/// shared counter.
pub open spec fn step_load(s: MutexSys, s2: MutexSys, t: int) -> bool {
    &&& 0 <= t < s.threads.len()
    &&& s.threads[t].phase == MutexPhase::Critical { loaded: None }
    &&& s2.word == s.word
    &&& s2.counter == s.counter
    &&& s2.threads == s.threads.update(
        t,
        MutexThread { phase: MutexPhase::Critical { loaded: Some(s.counter) }, ..s.threads[t] },
    )
}

/// The second half of the increment: the holder stores back one more than
/// the value it read — whatever that value is by now — and tallies one
/// completed increment.
pub open spec fn step_store(s: MutexSys, s2: MutexSys, t: int) -> bool {
    &&& 0 <= t < s.threads.len()
    &&& s.threads[t].phase matches MutexPhase::Critical { loaded: Some(v) } && s2.counter == v + 1
    &&& s2.word == s.word
    &&& s2.threads == s.threads.update(
        t,
        MutexThread {
            phase: MutexPhase::Critical { loaded: None },
            done: s.threads[t].done + 1,
        },
    )
}

/// The holder's release: the word returns to 0 and the thread leaves the
/// critical section (waking one waiter when the word read 2).
pub open spec fn step_release(s: MutexSys, s2: MutexSys, t: int) -> bool {
    &&& 0 <= t < s.threads.len()
    &&& s.threads[t].phase is Critical
    &&& s2.word == 0
    &&& s2.counter == s.counter
    &&& s2.threads == s.threads.update(
        t,
        MutexThread { phase: MutexPhase::Idle, ..s.threads[t] },
    )
}

/// One atomic step of the protocol, by any thread.
pub open spec fn mutex_step(s: MutexSys, s2: MutexSys) -> bool {
    exists|t: int|
        step_try_acquire(s, s2, t) || step_swap_acquire(s, s2, t) || step_load(s, s2, t)
            || step_store(s, s2, t) || step_release(s, s2, t)
}

/// The inductive invariant: the word is one of its three values, at most
/// one thread is in the critical section, a word reading 0 means nobody is,
/// the counter equals the completed increments — no update is ever lost —
/// and a value a holder has read is still the counter's value when it comes
/// to store, because nobody else can be inside to move it.
pub open spec fn mutex_inv(s: MutexSys) -> bool {
    &&& s.word <= 2
    &&& critical_count(s.threads) <= 1
    &&& s.word == 0 ==> critical_count(s.threads) == 0
    &&& s.counter == sum_done(s.threads)
    &&& forall|i: int|
        0 <= i < s.threads.len() ==> ((#[trigger] s.threads[i]).phase matches
        MutexPhase::Critical { loaded: Some(v) } ==> v == s.counter)
}

/// Updating one thread's entry moves each census by exactly the two
/// entries' contributions.
proof fn lemma_count_update(threads: Seq<MutexThread>, i: int, v: MutexThread)
    requires
        0 <= i < threads.len(),
    ensures
        critical_count(threads.update(i, v)) == critical_count(threads) - (
        if threads[i].phase is Critical {
            1int
        } else {
            0int
        }) + (if v.phase is Critical {
            1int
        } else {
            0int
        }),
        sum_done(threads.update(i, v)) == sum_done(threads) - threads[i].done + v.done,
    decreases threads.len(),
{
    if i == threads.len() - 1 {
        assert(threads.update(i, v).drop_last() =~= threads.drop_last());
    } else {
        assert(threads.update(i, v).drop_last() =~= threads.drop_last().update(i, v));
        lemma_count_update(threads.drop_last(), i, v);
    }
}

/// A thread in the critical section contributes to the count.
proof fn lemma_count_member(threads: Seq<MutexThread>, i: int)
    requires
        0 <= i < threads.len(),
        threads[i].phase is Critical,
    ensures
        critical_count(threads) >= 1,
    decreases threads.len(),
{
    if i != threads.len() - 1 {
        lemma_count_member(threads.drop_last(), i);
    }
}

/// Two distinct threads in the critical section make the count at least 2.
proof fn lemma_count_two_members(threads: Seq<MutexThread>, i: int, j: int)
    requires
        0 <= i < threads.len(),
        0 <= j < threads.len(),
        i != j,
        threads[i].phase is Critical,
        threads[j].phase is Critical,
    ensures
        critical_count(threads) >= 2,
    decreases threads.len(),
{
    if i == threads.len() - 1 {
        lemma_count_member(threads.drop_last(), j);
    } else if j == threads.len() - 1 {
        lemma_count_member(threads.drop_last(), i);
    } else {
        lemma_count_two_members(threads.drop_last(), i, j);
    }
}

/// With every thread idle and nothing done, both censuses are 0.
proof fn lemma_count_all_idle(threads: Seq<MutexThread>)
    requires
        forall|i: int|
            0 <= i < threads.len() ==> (#[trigger] threads[i]).phase is Idle && threads[i].done
                == 0,
    ensures
        critical_count(threads) == 0,
        sum_done(threads) == 0,
    decreases threads.len(),
{
    if threads.len() > 0 {
        lemma_count_all_idle(threads.drop_last());
    }
}

/// With every thread's tally equal, the total is threads times tally.
proof fn lemma_sum_done_uniform(threads: Seq<MutexThread>, each: nat)
    requires
        forall|i: int| 0 <= i < threads.len() ==> (#[trigger] threads[i]).done == each,
    ensures
        sum_done(threads) == threads.len() * each,
    decreases threads.len(),
{
    if threads.len() == 0 {
        assert(threads.len() * each == 0) by (nonlinear_arith)
            requires threads.len() == 0;
    } else {
        lemma_sum_done_uniform(threads.drop_last(), each);
        assert((threads.len() - 1) * each + each == threads.len() * each) by (nonlinear_arith);
    }
}

/// Replacing one thread's entry keeps every held load fresh, as long as
/// the counter stands still and the new entry's load is fresh too.
proof fn lemma_fresh_update(threads: Seq<MutexThread>, counter: nat, t: int, v: MutexThread)
    requires
        0 <= t < threads.len(),
        forall|i: int|
            0 <= i < threads.len() ==> ((#[trigger] threads[i]).phase matches
            MutexPhase::Critical { loaded: Some(w) } ==> w == counter),
        v.phase matches MutexPhase::Critical { loaded: Some(w) } ==> w == counter,
    ensures
        forall|i: int|
            0 <= i < threads.update(t, v).len() ==> ((#[trigger] threads.update(t, v)[i]).phase
                matches MutexPhase::Critical { loaded: Some(w) } ==> w == counter),
{
    assert forall|i: int|
        0 <= i < threads.update(t, v).len() implies ((#[trigger] threads.update(t, v)[i]).phase
        matches MutexPhase::Critical { loaded: Some(w) } ==> w == counter) by {
        if i != t {
            assert(threads.update(t, v)[i] == threads[i]);
        }
    }
}

/// The starting state satisfies the invariant.
pub proof fn lemma_mutex_init_inv(s: MutexSys)
    requires
        mutex_init(s),
    ensures
        mutex_inv(s),
{
    lemma_count_all_idle(s.threads);
}

/// Every atomic step of the protocol, by any thread, preserves the
/// invariant: acquisitions succeed only from word 0, where nobody is
/// inside; a release is made by the one thread that is; and a store is made
/// by the one holder, whose load no other thread can have outdated — the
/// mutual-exclusion argument that makes the count exact.
pub proof fn lemma_mutex_step_inv(s: MutexSys, s2: MutexSys)
    requires
        mutex_inv(s),
        mutex_step(s, s2),
    ensures
        mutex_inv(s2),
{
    let t = choose|t: int|
        step_try_acquire(s, s2, t) || step_swap_acquire(s, s2, t) || step_load(s, s2, t)
            || step_store(s, s2, t) || step_release(s, s2, t);
    if step_try_acquire(s, s2, t) {
        lemma_count_update(s.threads, t, s2.threads[t]);
        lemma_fresh_update(s.threads, s.counter, t, s2.threads[t]);
    } else if step_swap_acquire(s, s2, t) {
        if s.word == 0 {
            lemma_count_update(s.threads, t, s2.threads[t]);
            lemma_fresh_update(s.threads, s.counter, t, s2.threads[t]);
        }
    } else if step_load(s, s2, t) {
        lemma_count_update(s.threads, t, s2.threads[t]);
        lemma_fresh_update(s.threads, s.counter, t, s2.threads[t]);
    } else if step_store(s, s2, t) {
        lemma_count_update(s.threads, t, s2.threads[t]);
        assert forall|i: int|
            0 <= i < s2.threads.len() implies ((#[trigger] s2.threads[i]).phase matches
        MutexPhase::Critical { loaded: Some(w) } ==> w == s2.counter) by {
            if i != t && s2.threads[i].phase matches MutexPhase::Critical { loaded: Some(w) } {
                lemma_count_two_members(s.threads, i, t);
            }
        }
    } else {
        lemma_count_member(s.threads, t);
        lemma_count_update(s.threads, t, s2.threads[t]);
        lemma_fresh_update(s.threads, s.counter, t, s2.threads[t]);
    }
}

/// Whether the step from the `k`th state of a trace to the next is one
/// atomic protocol step.
pub open spec fn mutex_trace_step_at(trace: Seq<MutexSys>, k: int) -> bool {
    mutex_step(trace[k], trace[k + 1])
}

/// Mutual exclusion, stated over threads: in every execution of the word
/// protocol — any number of threads, any interleaving of its atomic steps
/// from the starting state — every reached state has at most one thread in
/// the critical section, never two distinct ones, and the shared counter
/// always equals the number of increments completed: none is ever lost.
pub proof fn lemma_mutex_trace_mutual_exclusion(trace: Seq<MutexSys>)
    requires
        trace.len() > 0,
        mutex_init(trace[0]),
        forall|k: int| 0 <= k < trace.len() - 1 ==> #[trigger] mutex_trace_step_at(trace, k),
    ensures
        forall|k: int| 0 <= k < trace.len() ==> #[trigger] mutex_inv(trace[k]),
        forall|k: int, i: int, j: int|
            0 <= k < trace.len() && 0 <= i < trace[k].threads.len() && 0 <= j
                < trace[k].threads.len() && i != j && #[trigger] (trace[k].threads[i]).phase
                is Critical ==> !(#[trigger] (trace[k].threads[j]).phase is Critical),
        forall|k: int|
            0 <= k < trace.len() ==> (#[trigger] trace[k]).counter == sum_done(trace[k].threads),
    decreases trace.len(),
{
    if trace.len() == 1 {
        lemma_mutex_init_inv(trace[0]);
    } else {
        let prefix = trace.drop_last();
        assert forall|k: int| 0 <= k < prefix.len() - 1 implies #[trigger] mutex_trace_step_at(
            prefix,
            k,
        ) by {
            assert(mutex_trace_step_at(trace, k));
            assert(prefix[k] == trace[k]);
            assert(prefix[k + 1] == trace[k + 1]);
        }
        lemma_mutex_trace_mutual_exclusion(prefix);
        assert forall|k: int| 0 <= k < trace.len() implies #[trigger] mutex_inv(trace[k]) by {
            if k < trace.len() - 1 {
                assert(mutex_inv(prefix[k]));
                assert(prefix[k] == trace[k]);
            } else {
                assert(mutex_inv(prefix[k - 1]));
                assert(prefix[k - 1] == trace[k - 1]);
                assert(mutex_trace_step_at(trace, k - 1));
                lemma_mutex_step_inv(trace[k - 1], trace[k]);
            }
        }
    }
    assert forall|k: int, i: int, j: int|
        0 <= k < trace.len() && 0 <= i < trace[k].threads.len() && 0 <= j
            < trace[k].threads.len() && i != j && #[trigger] (trace[k].threads[i]).phase
            is Critical implies !(#[trigger] (trace[k].threads[j]).phase is Critical) by {
        if trace[k].threads[j].phase is Critical {
            assert(mutex_inv(trace[k]));
            lemma_count_two_members(trace[k].threads, i, j);
        }
    }
    assert forall|k: int| 0 <= k < trace.len() implies (#[trigger] trace[k]).counter == sum_done(
        trace[k].threads,
    ) by {
        assert(mutex_inv(trace[k]));
    }
}

/// Mutual exclusion's sum, for N threads and K increments each: in every
/// execution of the word protocol from the starting state, once each of the
/// N threads has completed its K lock-increment-unlock rounds, the shared
/// counter reads exactly N times K — even though every increment is a plain
/// load followed by a store.
pub proof fn lemma_mutex_trace_counter_total(trace: Seq<MutexSys>, each: nat)
    requires
        trace.len() > 0,
        mutex_init(trace[0]),
        forall|k: int| 0 <= k < trace.len() - 1 ==> #[trigger] mutex_trace_step_at(trace, k),
        forall|i: int|
            0 <= i < trace.last().threads.len() ==> (#[trigger] trace.last().threads[i]).done
                == each,
    ensures
        trace.last().counter == trace.last().threads.len() * each,
{
    lemma_mutex_trace_mutual_exclusion(trace);
    assert(mutex_inv(trace[trace.len() - 1]));
    lemma_sum_done_uniform(trace.last().threads, each);
}

/// Counter accounting under mutual exclusion: when every increment of a
/// shared counter runs as its own lock-increment-unlock critical section,
/// any serialization of `n` such sections — for threads times increments
/// per thread, `n` is their product — ends with the counter raised by
/// exactly `n` and the lock released.
pub proof fn lemma_counter_accounting(m: Mutex<u64>, n: nat)
    requires
        m.wf(),
        !m.is_locked(),
        m@ is Some,
        m@.unwrap() + n <= u64::MAX,
    ensures
        spec_increment_rounds(m, n).wf(),
        !spec_increment_rounds(m, n).is_locked(),
        spec_increment_rounds(m, n)@ == Some((m@.unwrap() + n) as u64),
    decreases n,
{
    if n == 0 {
    } else {
        lemma_counter_accounting(spec_increment_round(m), (n - 1) as nat);
    }
}

} // verus!
