//! Reader-writer lock.
//!
//! One 32-bit word packs the whole state: `u32::MAX` means write-locked;
//! any other value is twice the reader count, plus one when a writer is
//! waiting. Readers may enter only while the word is even, so a waiting
//! writer (odd word) shuts the reader fast path and cannot be starved by a
//! stream of new readers; the last reader to leave clears the waiting bit
//! and wakes one writer through a separate writer-wake generation word.
//!
//! `RawRwlock` runs the protocol over real atomic words as single steps —
//! acquisition attempts, waiting-bit marking, blocking waits and releases —
//! which an embedding composes into blocking `read`/`write` loops; nothing
//! can be stated about words other threads race on. `Rwlock<T>` is the
//! owned form with exact contracts over the same word encoding: shared
//! readers leave the value in place and a write guard takes it out, so a
//! held write guard excludes every reader and writer by construction.
//!
//! [`RwSys`] is the interleaving model of the word protocol: any number of
//! threads, each taking one atomic step at a time. Its invariant — the word
//! carries the exact census of read critical sections, and the write-locked
//! value means one writer and no readers — is proved to hold in every state
//! of every execution ([`lemma_rw_trace_exclusivity`]): reader concurrency
//! with writer exclusivity, for N threads proper.

use vstd::prelude::*;
use core::sync::atomic::{AtomicU32, Ordering};
use crate::condvar::next_generation;

verus! {

/// The word value meaning "write-locked".
pub const WRITE_LOCKED: u32 = u32::MAX;

/// The cap on the reader word: above it a new reader could push the word
/// into the write-locked encoding, so acquisition stops short of it.
pub const READERS_FULL: u32 = u32::MAX - 2;

/// The state words of the reader-writer protocol, without a protected
/// value. Other threads race on these words, so the steps carry no value
/// contracts; what is verified is that each performs exactly its own atomic
/// accesses and cannot panic.
pub struct RawRwlock {
    reader_counters: AtomicU32,
    writer_wake_counter: AtomicU32,
}

impl RawRwlock {
    /// A fresh, unlocked word pair.
    pub fn new() -> RawRwlock {
        RawRwlock {
            reader_counters: AtomicU32::new(0),
            writer_wake_counter: AtomicU32::new(0),
        }
    }

    /// One iteration of the read loop: load the word; when it is even and
    /// below the cap, attempt to raise it by 2 (acquire on success) and
    /// report acquisition; when it is odd — a writer waits or holds the
    /// lock — block on the word as sampled, then report failure so the
    /// caller retries.
    pub fn read_step(&self) -> bool {
        let current = self.reader_counters.load(Ordering::Relaxed);
        if current % 2 == 0 && current < READERS_FULL {
            self.reader_counters.compare_exchange(
                current,
                current + 2,
                Ordering::Acquire,
                Ordering::Relaxed,
            ).is_ok()
        } else {
            if current % 2 == 1 {
                crate::futex::wait(&self.reader_counters, current);
            }
            false
        }
    }

    /// One iteration of the write loop: with no readers present (word at
    /// most 1) attempt to take the word to the write-locked value (acquire
    /// on success) and report acquisition. On an even word with readers,
    /// mark the waiting bit (a relaxed hint) and retry. On an odd word —
    /// the bit is set or a writer holds the lock — sample the writer-wake
    /// generation and block on it while the word stays that way: the last
    /// reader to leave a marked word, and every write release, bump the
    /// generation, and a bump between the sample and the sleep makes the
    /// sleep return at once. Reports failure in every non-acquiring case so
    /// the caller retries.
    pub fn write_step(&self) -> bool {
        let current = self.reader_counters.load(Ordering::Relaxed);
        if current <= 1 {
            return self.reader_counters.compare_exchange(
                current,
                WRITE_LOCKED,
                Ordering::Acquire,
                Ordering::Relaxed,
            ).is_ok();
        }
        if current % 2 == 0 {
            if current < READERS_FULL {
                let _ = self.reader_counters.compare_exchange(
                    current,
                    current + 1,
                    Ordering::Relaxed,
                    Ordering::Relaxed,
                );
            }
            return false;
        }
        let wake_generation = self.writer_wake_counter.load(Ordering::Acquire);
        let reloaded = self.reader_counters.load(Ordering::Relaxed);
        if reloaded % 2 == 1 && reloaded > 2 {
            crate::futex::wait(&self.writer_wake_counter, wake_generation);
        }
        false
    }

    /// A read guard's release: drop the word by 2 (release); when exactly
    /// the waiting bit remains, the leaving reader was the last one and a
    /// writer waits — clear the bit, bump the writer-wake generation and
    /// wake one writer.
    pub fn read_release(&self) {
        if self.reader_counters.fetch_sub(2, Ordering::Release) == 3 {
            let _ = self.reader_counters.compare_exchange(
                1,
                0,
                Ordering::Relaxed,
                Ordering::Relaxed,
            );
            self.writer_wake_counter.fetch_add(1, Ordering::Release);
            crate::futex::wake_one(&self.writer_wake_counter);
        }
    }

    /// A write guard's release: store 0 (release), bump the writer-wake
    /// generation and wake one writer — another writer may be waiting — and
    /// wake all readers, every one of which re-checks the word.
    pub fn write_release(&self) {
        self.reader_counters.store(0, Ordering::Release);
        self.writer_wake_counter.fetch_add(1, Ordering::Release);
        crate::futex::wake_one(&self.writer_wake_counter);
        crate::futex::wake_all(&self.reader_counters);
    }
}

/// The token of one shared acquisition of a [`Rwlock`]; the value itself
/// stays readable inside the lock while any reader holds one. Minted only
/// by [`Rwlock::read`].
pub struct ReadGuard {
    token: (),
}

/// The token of one exclusive acquisition of a [`Rwlock`]: it owns the
/// protected value for the duration of the critical section. Its view is
/// that value.
pub struct WriteGuard<T> {
    value: T,
}

impl<T> View for WriteGuard<T> {
    type V = T;

    closed spec fn view(&self) -> T {
        self.value
    }
}

impl<T> WriteGuard<T> {
    /// Read access to the protected value.
    pub fn get(&self) -> (r: &T)
        ensures
            *r == self@,
    {
        &self.value
    }

    /// Overwrites the protected value.
    pub fn set(&mut self, value: T)
        ensures
            final(self)@ == value,
    {
        self.value = value;
    }
}

/// A shared/exclusive lock over a protected value, over the packed word
/// encoding. Its view is `Some(value)` while the value is at rest or
/// shared among readers, and `None` while a write guard owns it.
pub struct Rwlock<T> {
    reader_counters: u32,
    writer_wake_counter: u32,
    value: Option<T>,
}

impl<T> View for Rwlock<T> {
    type V = Option<T>;

    closed spec fn view(&self) -> Option<T> {
        self.value
    }
}

impl<T> Rwlock<T> {
    /// The lock holds the value exactly while the word is not the
    /// write-locked value.
    pub closed spec fn wf(self) -> bool {
        self.value is Some <==> self.reader_counters != WRITE_LOCKED
    }

    /// The packed state word.
    pub closed spec fn word(self) -> u32 {
        self.reader_counters
    }

    /// The writer-wake generation word.
    pub closed spec fn wake_generation(self) -> u32 {
        self.writer_wake_counter
    }

    /// Whether a writer holds the lock.
    pub open spec fn is_write_locked(self) -> bool {
        self.word() == WRITE_LOCKED
    }

    /// Whether a writer has marked itself waiting (and does not hold the
    /// lock).
    pub open spec fn writer_waiting(self) -> bool {
        self.word() != WRITE_LOCKED && self.word() % 2 == 1
    }

    /// How many read guards are out.
    pub open spec fn readers(self) -> u32 {
        if self.word() == WRITE_LOCKED {
            0
        } else {
            self.word() / 2
        }
    }

    /// Whether a new reader may enter: the word is even — no writer holds
    /// the lock or waits for it — and below the cap.
    pub open spec fn can_read(self) -> bool {
        self.word() % 2 == 0 && self.word() < READERS_FULL
    }

    /// Whether a writer may take the lock now: no readers, at most a stale
    /// waiting bit.
    pub open spec fn can_write(self) -> bool {
        self.word() <= 1
    }

    /// The shared-acquisition transition: the word rises by 2.
    pub closed spec fn spec_read(l: Rwlock<T>) -> Rwlock<T> {
        Rwlock { reader_counters: (l.reader_counters + 2) as u32, ..l }
    }

    /// The shared-release transition: the word drops by 2; when exactly the
    /// waiting bit would remain, the last reader clears it and bumps the
    /// writer-wake generation.
    pub closed spec fn spec_read_release(l: Rwlock<T>) -> Rwlock<T> {
        if l.reader_counters - 2 == 1 {
            Rwlock {
                reader_counters: 0,
                writer_wake_counter: next_generation(l.writer_wake_counter),
                ..l
            }
        } else {
            Rwlock { reader_counters: (l.reader_counters - 2) as u32, ..l }
        }
    }

    /// The exclusive-acquisition transition: the word goes to the
    /// write-locked value and the protected value moves out to the caller.
    pub closed spec fn spec_write(l: Rwlock<T>) -> (Rwlock<T>, T) {
        (
            Rwlock { reader_counters: WRITE_LOCKED, value: None, ..l },
            l.value.unwrap(),
        )
    }

    /// The exclusive-release transition: the word returns to 0, the guard's
    /// value moves back in, and the writer-wake generation moves on.
    pub closed spec fn spec_write_release(l: Rwlock<T>, value: T) -> Rwlock<T> {
        Rwlock {
            reader_counters: 0,
            writer_wake_counter: next_generation(l.writer_wake_counter),
            value: Some(value),
        }
    }

    /// The waiting-bit transition: an arriving writer that found readers
    /// present raises the word by 1, shutting the reader fast path.
    pub closed spec fn spec_mark_writer(l: Rwlock<T>) -> Rwlock<T> {
        Rwlock { reader_counters: (l.reader_counters + 1) as u32, ..l }
    }

    /// A new, unlocked lock protecting `value`.
    pub fn new(value: T) -> (l: Rwlock<T>)
        ensures
            l.wf(),
            l.word() == 0,
            l.wake_generation() == 0,
            l@ == Some(value),
    {
        Rwlock { reader_counters: 0, writer_wake_counter: 0, value: Some(value) }
    }

    /// Read access to the protected value, shared by all current readers.
    pub fn data(&self) -> (r: &T)
        requires
            self.wf(),
            !self.is_write_locked(),
        ensures
            self@ == Some(*r),
    {
        self.value.as_ref().unwrap()
    }

    /// Acquires the lock shared: the word rises by 2 and the value stays in
    /// place for every reader. Enabled exactly while the word is even — a
    /// waiting or holding writer blocks new readers — and below the cap; in
    /// the threaded embedding a reader otherwise blocks and retries.
    pub fn read(&mut self) -> (g: ReadGuard)
        requires
            old(self).wf(),
            old(self).can_read(),
        ensures
            final(self).wf(),
            *final(self) == Self::spec_read(*old(self)),
            final(self).word() == old(self).word() + 2,
            final(self).readers() == old(self).readers() + 1,
            final(self).writer_waiting() == old(self).writer_waiting(),
            final(self)@ == old(self)@,
            final(self).wake_generation() == old(self).wake_generation(),
    {
        self.reader_counters = self.reader_counters + 2;
        ReadGuard { token: () }
    }

    /// Releases one shared acquisition: the word drops by 2. When exactly
    /// the waiting bit remains the leaving reader is the last and a writer
    /// waits: the bit is cleared and the writer-wake generation moves on —
    /// in the threaded embedding one writer is woken.
    pub fn read_release(&mut self, guard: ReadGuard)
        requires
            old(self).wf(),
            !old(self).is_write_locked(),
            old(self).readers() >= 1,
        ensures
            final(self).wf(),
            *final(self) == Self::spec_read_release(*old(self)),
            final(self).word() == if old(self).word() - 2 == 1 {
                0u32
            } else {
                (old(self).word() - 2) as u32
            },
            final(self).wake_generation() == if old(self).word() - 2 == 1 {
                next_generation(old(self).wake_generation())
            } else {
                old(self).wake_generation()
            },
            final(self).readers() == old(self).readers() - 1,
            final(self)@ == old(self)@,
    {
        let _ = guard;
        let dropped = self.reader_counters - 2;
        if dropped == 1 {
            self.reader_counters = 0;
            self.writer_wake_counter = self.writer_wake_counter.wrapping_add(1);
        } else {
            self.reader_counters = dropped;
        }
    }

    /// Acquires the lock exclusively: the word goes to the write-locked
    /// value and the protected value moves into the returned guard. Enabled
    /// exactly while no reader is present (at most a stale waiting bit); in
    /// the threaded embedding a writer otherwise marks itself waiting,
    /// blocks and retries.
    pub fn write(&mut self) -> (g: WriteGuard<T>)
        requires
            old(self).wf(),
            old(self).can_write(),
        ensures
            final(self).wf(),
            (*final(self), g@) == Self::spec_write(*old(self)),
            final(self).is_write_locked(),
            final(self)@ is None,
            old(self)@ == Some(g@),
            final(self).wake_generation() == old(self).wake_generation(),
    {
        let value = self.value.take();
        self.reader_counters = WRITE_LOCKED;
        WriteGuard { value: value.unwrap() }
    }

    /// Releases the exclusive acquisition, surrendering the guard: the word
    /// returns to 0, the guard's value moves back in, and the writer-wake
    /// generation moves on — in the threaded embedding one writer is woken
    /// (another may be waiting) and all blocked readers are woken to
    /// re-check the word.
    pub fn write_release(&mut self, guard: WriteGuard<T>)
        requires
            old(self).wf(),
            old(self).is_write_locked(),
        ensures
            final(self).wf(),
            *final(self) == Self::spec_write_release(*old(self), guard@),
            final(self).word() == 0,
            final(self).wake_generation() == next_generation(old(self).wake_generation()),
            !final(self).is_write_locked(),
            final(self).readers() == 0,
            !final(self).writer_waiting(),
            final(self)@ == Some(guard@),
    {
        self.reader_counters = 0;
        self.writer_wake_counter = self.writer_wake_counter.wrapping_add(1);
        self.value = Some(guard.value);
    }

    /// An arriving writer that found readers present marks itself waiting:
    /// the word rises by 1 and every new reader is shut out until the
    /// writer has had its turn.
    pub fn mark_writer_waiting(&mut self)
        requires
            old(self).wf(),
            old(self).word() % 2 == 0,
            old(self).word() >= 2,
            old(self).word() < READERS_FULL,
        ensures
            final(self).wf(),
            *final(self) == Self::spec_mark_writer(*old(self)),
            final(self).word() == old(self).word() + 1,
            final(self).writer_waiting(),
            final(self).readers() == old(self).readers(),
            final(self)@ == old(self)@,
    {
        self.reader_counters = self.reader_counters + 1;
    }

    /// How many read guards are out.
    pub fn reader_count(&self) -> (r: u32)
        requires
            self.wf(),
        ensures
            r == self.readers(),
    {
        if self.reader_counters == WRITE_LOCKED {
            0
        } else {
            self.reader_counters / 2
        }
    }

    /// Whether a writer holds the lock.
    pub fn write_locked(&self) -> (r: bool)
        requires
            self.wf(),
        ensures
            r == self.is_write_locked(),
    {
        self.reader_counters == WRITE_LOCKED
    }

    /// Whether a new reader may enter now.
    pub fn readable(&self) -> (r: bool)
        requires
            self.wf(),
        ensures
            r == self.can_read(),
    {
        self.reader_counters % 2 == 0 && self.reader_counters < READERS_FULL
    }

    /// Whether a writer may take the lock now.
    pub fn writable(&self) -> (r: bool)
        requires
            self.wf(),
        ensures
            r == self.can_write(),
    {
        self.reader_counters <= 1
    }
}

/// What one thread is doing to a reader-writer word at an instant: not
/// holding it, inside a read critical section, or inside the write critical
/// section.
pub enum RwPhase {
    Outside,
    Reading,
    Writing,
}

/// A whole system at an instant: the shared word and every thread's phase.
/// This is the interleaving model of the word protocol itself, one atomic
/// step at a time. (The writer-wake generation only schedules wakeups and
/// plays no part in who may hold what, so it is left out here.)
pub struct RwSys {
    pub word: u32,
    pub threads: Seq<RwPhase>,
}

/// How many threads stand inside a read critical section.
pub open spec fn reading_count(threads: Seq<RwPhase>) -> nat
    decreases threads.len(),
{
    if threads.len() == 0 {
        0
    } else {
        reading_count(threads.drop_last()) + if threads.last() is Reading {
            1nat
        } else {
            0nat
        }
    }
}

/// How many threads stand inside the write critical section.
pub open spec fn writing_count(threads: Seq<RwPhase>) -> nat
    decreases threads.len(),
{
    if threads.len() == 0 {
        0
    } else {
        writing_count(threads.drop_last()) + if threads.last() is Writing {
            1nat
        } else {
            0nat
        }
    }
}

/// The starting state: word 0, every thread outside.
pub open spec fn rw_init(s: RwSys) -> bool {
    s.word == 0 && forall|i: int| 0 <= i < s.threads.len() ==> s.threads[i] is Outside
}

/// One thread's successful read acquisition: the word was even and below
/// the cap, rises by 2, and the thread enters a read critical section.
pub open spec fn step_read_acquire(s: RwSys, s2: RwSys, t: int) -> bool {
    &&& 0 <= t < s.threads.len()
    &&& s.threads[t] is Outside
    &&& s.word % 2 == 0
    &&& s.word < READERS_FULL
    &&& s2.word == s.word + 2
    &&& s2.threads == s.threads.update(t, RwPhase::Reading)
}

/// One reader's release: the word drops by 2, and when exactly the waiting
/// bit would remain, the last reader clears it on the way out.
pub open spec fn step_read_release(s: RwSys, s2: RwSys, t: int) -> bool {
    &&& 0 <= t < s.threads.len()
    &&& s.threads[t] is Reading
    &&& s2.word == if s.word - 2 == 1 {
        0u32
    } else {
        (s.word - 2) as u32
    }
    &&& s2.threads == s.threads.update(t, RwPhase::Outside)
}

/// An arriving writer marks itself waiting: the word was even with readers
/// present and rises by 1; the writer itself stays outside, blocked.
pub open spec fn step_mark_writer(s: RwSys, s2: RwSys, t: int) -> bool {
    &&& 0 <= t < s.threads.len()
    &&& s.threads[t] is Outside
    &&& s.word % 2 == 0
    &&& 2 <= s.word < READERS_FULL
    &&& s2.word == s.word + 1
    &&& s2.threads == s.threads
}

/// One thread's successful write acquisition: the word held no readers (at
/// most a stale waiting bit), goes to the write-locked value, and the
/// thread enters the write critical section.
pub open spec fn step_write_acquire(s: RwSys, s2: RwSys, t: int) -> bool {
    &&& 0 <= t < s.threads.len()
    &&& s.threads[t] is Outside
    &&& s.word <= 1
    &&& s2.word == WRITE_LOCKED
    &&& s2.threads == s.threads.update(t, RwPhase::Writing)
}

/// The writer's release: the word returns to 0 and the thread leaves the
/// write critical section.
pub open spec fn step_write_release(s: RwSys, s2: RwSys, t: int) -> bool {
    &&& 0 <= t < s.threads.len()
    &&& s.threads[t] is Writing
    &&& s2.word == 0
    &&& s2.threads == s.threads.update(t, RwPhase::Outside)
}

/// One atomic step of the protocol, by any thread.
pub open spec fn rw_step(s: RwSys, s2: RwSys) -> bool {
    exists|t: int|
        step_read_acquire(s, s2, t) || step_read_release(s, s2, t) || step_mark_writer(s, s2, t)
            || step_write_acquire(s, s2, t) || step_write_release(s, s2, t)
}

/// The inductive invariant, the heart of the packed encoding: while the
/// word is the write-locked value exactly one thread writes and none reads,
/// and any other word value carries the exact census of the read critical
/// sections in its upper bits.
pub open spec fn rw_inv(s: RwSys) -> bool {
    if s.word == WRITE_LOCKED {
        writing_count(s.threads) == 1 && reading_count(s.threads) == 0
    } else {
        writing_count(s.threads) == 0 && reading_count(s.threads) == s.word / 2
    }
}

/// Updating one thread's phase moves each census by exactly the two
/// phases' contributions.
proof fn lemma_rw_count_update(threads: Seq<RwPhase>, i: int, p: RwPhase)
    requires
        0 <= i < threads.len(),
    ensures
        reading_count(threads.update(i, p)) == reading_count(threads) - (
        if threads[i] is Reading {
            1int
        } else {
            0int
        }) + (if p is Reading {
            1int
        } else {
            0int
        }),
        writing_count(threads.update(i, p)) == writing_count(threads) - (
        if threads[i] is Writing {
            1int
        } else {
            0int
        }) + (if p is Writing {
            1int
        } else {
            0int
        }),
    decreases threads.len(),
{
    if i == threads.len() - 1 {
        assert(threads.update(i, p).drop_last() =~= threads.drop_last());
    } else {
        assert(threads.update(i, p).drop_last() =~= threads.drop_last().update(i, p));
        lemma_rw_count_update(threads.drop_last(), i, p);
    }
}

/// With every thread outside, both censuses are 0.
proof fn lemma_rw_count_all_outside(threads: Seq<RwPhase>)
    requires
        forall|i: int| 0 <= i < threads.len() ==> threads[i] is Outside,
    ensures
        reading_count(threads) == 0,
        writing_count(threads) == 0,
    decreases threads.len(),
{
    if threads.len() > 0 {
        lemma_rw_count_all_outside(threads.drop_last());
    }
}

/// A thread inside a read critical section shows in the census, and one
/// inside the write critical section likewise.
proof fn lemma_rw_count_member(threads: Seq<RwPhase>, i: int)
    requires
        0 <= i < threads.len(),
    ensures
        threads[i] is Reading ==> reading_count(threads) >= 1,
        threads[i] is Writing ==> writing_count(threads) >= 1,
    decreases threads.len(),
{
    if i != threads.len() - 1 {
        lemma_rw_count_member(threads.drop_last(), i);
    }
}

/// The starting state satisfies the invariant.
pub proof fn lemma_rw_init_inv(s: RwSys)
    requires
        rw_init(s),
    ensures
        rw_inv(s),
{
    lemma_rw_count_all_outside(s.threads);
}

/// Every atomic step of the protocol, by any thread, preserves the
/// invariant: readers enter only over an even word below the cap, which the
/// write-locked value never is; a writer enters only over a word with no
/// readers; and each release takes exactly its own census contribution out
/// of the word.
pub proof fn lemma_rw_step_inv(s: RwSys, s2: RwSys)
    requires
        rw_inv(s),
        rw_step(s, s2),
    ensures
        rw_inv(s2),
{
    let t = choose|t: int|
        step_read_acquire(s, s2, t) || step_read_release(s, s2, t) || step_mark_writer(s, s2, t)
            || step_write_acquire(s, s2, t) || step_write_release(s, s2, t);
    if step_read_acquire(s, s2, t) {
        lemma_rw_count_update(s.threads, t, RwPhase::Reading);
    } else if step_read_release(s, s2, t) {
        lemma_rw_count_member(s.threads, t);
        lemma_rw_count_update(s.threads, t, RwPhase::Outside);
    } else if step_mark_writer(s, s2, t) {
    } else if step_write_acquire(s, s2, t) {
        lemma_rw_count_update(s.threads, t, RwPhase::Writing);
    } else {
        lemma_rw_count_member(s.threads, t);
        lemma_rw_count_update(s.threads, t, RwPhase::Outside);
    }
}

/// Whether the step from the `k`th state of a trace to the next is one
/// atomic protocol step.
pub open spec fn rw_trace_step_at(trace: Seq<RwSys>, k: int) -> bool {
    rw_step(trace[k], trace[k + 1])
}

/// Reader concurrency and writer exclusivity, stated over threads: in every
/// execution of the word protocol — any number of threads, any interleaving
/// of its atomic steps from the starting state — every reached state either
/// has no writer, with exactly the readers its word counts (any number may
/// coexist), or exactly one writer and no reader at all.
pub proof fn lemma_rw_trace_exclusivity(trace: Seq<RwSys>)
    requires
        trace.len() > 0,
        rw_init(trace[0]),
        forall|k: int| 0 <= k < trace.len() - 1 ==> #[trigger] rw_trace_step_at(trace, k),
    ensures
        forall|k: int| 0 <= k < trace.len() ==> #[trigger] rw_inv(trace[k]),
    decreases trace.len(),
{
    if trace.len() == 1 {
        lemma_rw_init_inv(trace[0]);
    } else {
        let prefix = trace.drop_last();
        assert forall|k: int| 0 <= k < prefix.len() - 1 implies #[trigger] rw_trace_step_at(
            prefix,
            k,
        ) by {
            assert(rw_trace_step_at(trace, k));
            assert(prefix[k] == trace[k]);
            assert(prefix[k + 1] == trace[k + 1]);
        }
        lemma_rw_trace_exclusivity(prefix);
        assert forall|k: int| 0 <= k < trace.len() implies #[trigger] rw_inv(trace[k]) by {
            if k < trace.len() - 1 {
                assert(rw_inv(prefix[k]));
                assert(prefix[k] == trace[k]);
            } else {
                assert(rw_inv(prefix[k - 1]));
                assert(prefix[k - 1] == trace[k - 1]);
                assert(rw_trace_step_at(trace, k - 1));
                lemma_rw_step_inv(trace[k - 1], trace[k]);
            }
        }
    }
}

/// `n` shared acquisitions one after another.
pub closed spec fn spec_reads<T>(l: Rwlock<T>, n: nat) -> Rwlock<T>
    decreases n,
{
    if n == 0 {
        l
    } else {
        spec_reads(Rwlock::spec_read(l), (n - 1) as nat)
    }
}

/// `n` shared releases one after another.
pub closed spec fn spec_read_releases<T>(l: Rwlock<T>, n: nat) -> Rwlock<T>
    decreases n,
{
    if n == 0 {
        l
    } else {
        spec_read_releases(Rwlock::spec_read_release(l), (n - 1) as nat)
    }
}

/// Reader concurrency: from an unlocked word with no writer waiting, any
/// number of readers — while the word stays below the cap, the one
/// hypothesis the 31-bit reader field of the word encoding forces — may
/// hold the lock at once: after `n` acquisitions the word holds exactly
/// `2 * n` more, the reader count has risen by `n`, and the protected value
/// is in place for all of them.
pub proof fn lemma_reader_concurrency<T>(l: Rwlock<T>, n: nat)
    requires
        l.wf(),
        l.word() % 2 == 0,
        l.word() + 2 * n < READERS_FULL,
    ensures
        spec_reads(l, n).wf(),
        spec_reads(l, n).word() == l.word() + 2 * n,
        spec_reads(l, n).readers() == l.readers() + n,
        !spec_reads(l, n).is_write_locked(),
        spec_reads(l, n)@ == l@,
        n > 0 ==> spec_reads(l, (n - 1) as nat).can_read(),
    decreases n,
{
    if n > 0 {
        lemma_reader_concurrency(Rwlock::spec_read(l), (n - 1) as nat);
    }
}

/// Writer exclusivity: while a write guard is held, the protected value is
/// owned by that guard alone — the lock's own view is empty — and neither a
/// reader nor another writer can enter until the guard is surrendered.
pub proof fn lemma_writer_exclusivity<T>(l: Rwlock<T>)
    requires
        l.wf(),
        l.can_write(),
        l@ is Some,
    ensures
        Rwlock::spec_write(l).0.is_write_locked(),
        !Rwlock::spec_write(l).0.can_read(),
        !Rwlock::spec_write(l).0.can_write(),
        Rwlock::spec_write(l).0.readers() == 0,
        Rwlock::spec_write(l).0@ is None,
        Rwlock::spec_write(l).1 == l@.unwrap(),
{
}

/// Writer non-starvation, first half: once a writer has marked itself
/// waiting, the word is odd, so no new reader can acquire until the waiting
/// writer has had its turn.
pub proof fn lemma_waiting_writer_blocks_readers<T>(l: Rwlock<T>)
    requires
        l.wf(),
        l.writer_waiting(),
    ensures
        !l.can_read(),
{
}

/// Writer non-starvation, second half: once a writer has marked itself
/// waiting over `r` present readers, exactly `r` reader-release events
/// later the word reaches 0 — the last release clears the waiting bit and
/// bumps the writer-wake generation — and the writer may acquire.
pub proof fn lemma_writer_turn<T>(l: Rwlock<T>, r: nat)
    requires
        l.wf(),
        l.writer_waiting(),
        l.readers() == r,
    ensures
        spec_read_releases(l, r).wf(),
        spec_read_releases(l, r).can_write(),
        spec_read_releases(l, r).word() == if r == 0 {
            1u32
        } else {
            0u32
        },
        spec_read_releases(l, r)@ == l@,
    decreases r,
{
    if r > 0 {
        let released = Rwlock::spec_read_release(l);
        if r == 1 {
            assert(released.word() == 0);
            assert(spec_read_releases(l, r) == spec_read_releases(released, 0nat));
        } else {
            assert(released.writer_waiting());
            assert(released.readers() == r - 1);
            lemma_writer_turn(released, (r - 1) as nat);
        }
    }
}

} // verus!
