//! Shared-ownership pointer with strong and weak reference counts.
//!
//! One allocation — [`ArcData`] — carries a strong count, a weak count and
//! the payload. The merged design: the payload is valid exactly while the
//! strong count is positive, the allocation itself exactly while the weak
//! count is positive, and all the strong handles together own one implicit
//! weak reference, released by the last [`Arc`] to drop. The payload is
//! destroyed at most once (on the strong count's transition to 0) and the
//! allocation is freed at most once (on the weak count's transition to 0,
//! necessarily after the payload is gone).
//!
//! Because Verus owns no raw pointers here, the allocation is an explicit
//! value and the handles are move-only tokens: every operation takes the
//! [`ArcData`] alongside the [`Arc`] or [`Weak`] it consumes or produces,
//! and its contract states the exact count transition. "Destroyed" is the
//! payload slot turning `None`; "deallocated" is the weak count reaching 0.
//!
//! The one subtle operation is [`Arc::get_mut`]: unique ownership means
//! strong count and weak count both 1 *at the same instant*, although they
//! are two separate words. It is decided by locking the weak count with a
//! reserved sentinel while the strong count is inspected, which shuts out
//! every concurrent `downgrade` (a downgrade spins briefly while the
//! sentinel is held); the counts behave as one atomically-inspectable unit
//! for the span of the call, so a unique answer is never stale.
//!
//! That argument is proved, not just asserted: [`ArcSys`] is the
//! interleaving model of the count protocol — any number of threads
//! cloning, dropping, downgrading, upgrading and checking uniqueness, one
//! atomic step at a time. Its invariant ties each count word to the exact
//! census of handles across all threads and holds in every state of every
//! execution ([`lemma_arc_trace_inv`]); reading strong count 1 under the
//! sentinel then means the checking thread's handle is the only one in
//! existence ([`lemma_arc_unique_observation`]).

use vstd::prelude::*;

verus! {

/// Counts at or above this are treated as overflow danger: the process
/// aborts rather than let a counter wrap and corrupt the ownership
/// invariant, so verified callers stay strictly below it.
pub const COUNT_SATURATION: usize = usize::MAX / 2;

/// The reserved weak-count value meaning "locked by a unique-access check".
/// It never outlives one [`Arc::get_mut`] call.
pub const WEAK_LOCKED: usize = usize::MAX;

/// The single heap block behind one family of [`Arc`] and [`Weak`] handles.
/// Its view is the payload slot: `Some` while the payload is alive, `None`
/// once destroyed.
pub struct ArcData<T> {
    strong_count: usize,
    weak_count: usize,
    payload: Option<T>,
}

impl<T> View for ArcData<T> {
    type V = Option<T>;

    closed spec fn view(&self) -> Option<T> {
        self.payload
    }
}

/// An owning handle: keeps the payload alive. A move-only token — cloning
/// it goes through [`Arc::clone`], which raises the strong count — that
/// only this module can mint.
pub struct Arc {
    token: (),
}

/// A non-owning handle: keeps only the allocation alive, so an upgrade
/// attempt can still inspect the strong count safely. Move-only, minted
/// only here.
pub struct Weak {
    token: (),
}

impl<T> ArcData<T> {
    /// The payload lives exactly while strong handles do; every strong
    /// handle implies the implicit weak reference; the sentinel never
    /// escapes a call; and both counts stay below the abort threshold.
    pub closed spec fn wf(self) -> bool {
        &&& self.payload is Some <==> self.strong_count > 0
        &&& self.strong_count > 0 ==> self.weak_count > 0
        &&& self.strong_count <= COUNT_SATURATION
        &&& self.weak_count <= COUNT_SATURATION
    }

    /// How many owning handles exist.
    pub closed spec fn strong(self) -> usize {
        self.strong_count
    }

    /// How many weak references exist, the implicit one of all the strong
    /// handles included.
    pub closed spec fn weak(self) -> usize {
        self.weak_count
    }

    /// Whether the heap block itself is still allocated.
    pub open spec fn is_allocated(self) -> bool {
        self.weak() > 0
    }

    /// Whether ownership is unique: one strong handle and no weak reference
    /// besides the implicit one — the condition under which handing out a
    /// mutable reference is safe.
    pub open spec fn is_unique(self) -> bool {
        self.strong() == 1 && self.weak() == 1
    }

    /// How many owning handles exist.
    pub fn strong_count(&self) -> (r: usize)
        ensures
            r == self.strong(),
    {
        self.strong_count
    }

    /// How many weak references exist.
    pub fn weak_count(&self) -> (r: usize)
        ensures
            r == self.weak(),
    {
        self.weak_count
    }
}

/// One fresh allocation: strong count 1 for the new handle, weak count 1
/// for the implicit weak reference owned by all strong handles together.
pub closed spec fn spec_new<T>(value: T) -> ArcData<T> {
    ArcData { strong_count: 1, weak_count: 1, payload: Some(value) }
}

/// The strong-clone transition: the strong count rises by one.
pub closed spec fn spec_clone<T>(d: ArcData<T>) -> ArcData<T> {
    ArcData { strong_count: (d.strong_count + 1) as usize, ..d }
}

/// The strong-drop transition: the strong count falls by one; the last
/// owner destroys the payload and releases the implicit weak reference.
pub closed spec fn spec_drop<T>(d: ArcData<T>) -> ArcData<T> {
    if d.strong_count == 1 {
        ArcData {
            strong_count: 0,
            weak_count: (d.weak_count - 1) as usize,
            payload: None,
        }
    } else {
        ArcData { strong_count: (d.strong_count - 1) as usize, ..d }
    }
}

/// The downgrade / weak-clone transition: the weak count rises by one.
pub closed spec fn spec_downgrade<T>(d: ArcData<T>) -> ArcData<T> {
    ArcData { weak_count: (d.weak_count + 1) as usize, ..d }
}

/// The weak-drop transition: the weak count falls by one; at zero the
/// allocation is freed.
pub closed spec fn spec_weak_drop<T>(d: ArcData<T>) -> ArcData<T> {
    ArcData { weak_count: (d.weak_count - 1) as usize, ..d }
}

/// The upgrade transition and whether it succeeds: with the payload gone
/// (strong count 0) nothing changes and the attempt fails; otherwise the
/// strong count rises by one for the new owning handle.
pub closed spec fn spec_upgrade<T>(d: ArcData<T>) -> (ArcData<T>, bool) {
    if d.strong_count == 0 {
        (d, false)
    } else {
        (ArcData { strong_count: (d.strong_count + 1) as usize, ..d }, true)
    }
}

impl Arc {
    /// Allocates a payload with fresh counts and hands back the first
    /// owning handle.
    pub fn new<T>(value: T) -> (r: (ArcData<T>, Arc))
        ensures
            r.0.wf(),
            r.0 == spec_new(value),
            r.0.strong() == 1,
            r.0.weak() == 1,
            r.0@ == Some(value),
    {
        (ArcData { strong_count: 1, weak_count: 1, payload: Some(value) }, Arc { token: () })
    }

    /// Dereference: the payload, alive as long as any owning handle is.
    pub fn deref<'a, T>(&self, data: &'a ArcData<T>) -> (r: &'a T)
        requires
            data.wf(),
            data.strong() >= 1,
        ensures
            data@ == Some(*r),
    {
        data.payload.as_ref().unwrap()
    }

    /// A second owning handle: raises the strong count by one. No payload
    /// access is gated by this increment, so the threaded embedding may use
    /// a relaxed increment; at the saturation threshold the process aborts
    /// instead, which the precondition excludes.
    pub fn clone<T>(&self, data: &mut ArcData<T>) -> (a: Arc)
        requires
            old(data).wf(),
            old(data).strong() >= 1,
            old(data).strong() < COUNT_SATURATION,
        ensures
            final(data).wf(),
            *final(data) == spec_clone(*old(data)),
            final(data).strong() == old(data).strong() + 1,
            final(data).weak() == old(data).weak(),
            final(data)@ == old(data)@,
    {
        data.strong_count = data.strong_count + 1;
        Arc { token: () }
    }

    /// Surrenders an owning handle: the strong count falls by one (release
    /// ordering in the threaded embedding). The last owner — after an
    /// acquire fence that synchronizes with every earlier owner's accesses —
    /// destroys the payload in place, exactly once, and then releases the
    /// implicit weak reference; when that was also the last weak reference,
    /// the allocation is freed.
    pub fn drop<T>(self, data: &mut ArcData<T>)
        requires
            old(data).wf(),
            old(data).strong() >= 1,
        ensures
            final(data).wf(),
            *final(data) == spec_drop(*old(data)),
            final(data).strong() == old(data).strong() - 1,
            old(data).strong() == 1 ==> final(data)@ is None && final(data).weak() == old(
                data,
            ).weak() - 1,
            old(data).strong() > 1 ==> final(data)@ == old(data)@ && final(data).weak() == old(
                data,
            ).weak(),
    {
        let remaining = data.strong_count - 1;
        data.strong_count = remaining;
        if remaining == 0 {
            data.payload = None;
            data.weak_count = data.weak_count - 1;
        }
    }

    /// A new weak reference: raises the weak count by one. The threaded
    /// embedding spins while a unique-access check holds the weak count at
    /// the sentinel — that window is a brief load-then-store, and the
    /// sentinel never rests between calls, so here the count is plain.
    pub fn downgrade<T>(&self, data: &mut ArcData<T>) -> (w: Weak)
        requires
            old(data).wf(),
            old(data).strong() >= 1,
            old(data).weak() < COUNT_SATURATION,
        ensures
            final(data).wf(),
            *final(data) == spec_downgrade(*old(data)),
            final(data).weak() == old(data).weak() + 1,
            final(data).strong() == old(data).strong(),
            final(data)@ == old(data)@,
    {
        data.weak_count = data.weak_count + 1;
        Weak { token: () }
    }

    /// Unique-mutable access: a usable mutable reference comes back exactly
    /// when the strong count and the weak count are both 1 at the same
    /// instant. The weak count is locked to the sentinel (acquire — this
    /// synchronizes with every earlier weak handle's drop or upgrade) while
    /// the strong count is inspected, and restored afterwards (release, so
    /// spinning downgrades observe a value consistent with later drops);
    /// a concurrent downgrade therefore either already shows in a weak
    /// count above 1 or finds the sentinel and waits — a stale "unique"
    /// answer is impossible. On failure the counts are left exactly as
    /// found.
    pub fn get_mut<'a, T>(&self, data: &'a mut ArcData<T>) -> (r: Option<&'a mut T>)
        requires
            old(data).wf(),
            old(data).strong() >= 1,
        ensures
            (r is Some) <==> old(data).is_unique(),
            r is None ==> *final(data) == *old(data),
            r matches Some(p) ==> *p == (*old(data))@.unwrap() && final(data).strong() == 1
                && final(data).weak() == 1 && final(data)@ == Some(*final(p)),
            final(data).wf(),
    {
        if data.weak_count == 1 {
            data.weak_count = WEAK_LOCKED;
            let strong = data.strong_count;
            data.weak_count = 1;
            if strong == 1 {
                match &mut data.payload {
                    Some(p) => Some(p),
                    None => None,
                }
            } else {
                None
            }
        } else {
            None
        }
    }
}

impl Weak {
    /// A second weak reference: raises the weak count by one.
    pub fn clone<T>(&self, data: &mut ArcData<T>) -> (w: Weak)
        requires
            old(data).wf(),
            old(data).weak() >= 1,
            old(data).weak() < COUNT_SATURATION,
        ensures
            final(data).wf(),
            *final(data) == spec_downgrade(*old(data)),
            final(data).weak() == old(data).weak() + 1,
            final(data).strong() == old(data).strong(),
            final(data)@ == old(data)@,
    {
        data.weak_count = data.weak_count + 1;
        Weak { token: () }
    }

    /// Surrenders a weak reference: the weak count falls by one; at zero
    /// the allocation is freed, exactly once — and necessarily after the
    /// payload is gone, since the strong handles' implicit weak reference
    /// outlives them all. While strong handles remain, this weak reference
    /// and the implicit one make the count at least 2.
    pub fn drop<T>(self, data: &mut ArcData<T>)
        requires
            old(data).wf(),
            old(data).weak() >= 1,
            old(data).strong() > 0 ==> old(data).weak() >= 2,
        ensures
            final(data).wf(),
            *final(data) == spec_weak_drop(*old(data)),
            final(data).weak() == old(data).weak() - 1,
            final(data).strong() == old(data).strong(),
            final(data)@ == old(data)@,
            old(data).weak() == 1 ==> !final(data).is_allocated(),
    {
        data.weak_count = data.weak_count - 1;
    }

    /// Attempts to promote this weak reference to an owning handle: fails
    /// exactly when the payload is already gone, and otherwise raises the
    /// strong count by one. The threaded embedding runs this as a weak
    /// compare-and-swap loop so the count can never move from 0 back up.
    pub fn upgrade<T>(&self, data: &mut ArcData<T>) -> (r: Option<Arc>)
        requires
            old(data).wf(),
            old(data).weak() >= 1,
            old(data).strong() < COUNT_SATURATION,
        ensures
            final(data).wf(),
            (r is Some) <==> old(data).strong() > 0,
            (*final(data), r is Some) == spec_upgrade(*old(data)),
            old(data).strong() > 0 ==> final(data).strong() == old(data).strong() + 1
                && final(data)@ == old(data)@ && final(data).weak() == old(data).weak(),
            old(data).strong() == 0 ==> *final(data) == *old(data),
    {
        if data.strong_count == 0 {
            None
        } else {
            data.strong_count = data.strong_count + 1;
            Some(Arc { token: () })
        }
    }
}

/// What one thread is doing to the two count words at an instant: between
/// operations (holding any number of handles), about to release the strong
/// handles' implicit weak reference after dropping the last of them, or
/// holding the weak count at the sentinel inside a unique-access check.
pub enum ArcPhase {
    Running,
    ReleasingImplicit,
    WeakLocked,
}

/// One thread: how many owning and weak handles it holds, and its phase.
pub struct ArcThread {
    pub arcs: nat,
    pub weaks: nat,
    pub phase: ArcPhase,
}

/// A whole system at an instant: the two count words, whether the weak word
/// currently shows the reserved sentinel, and every thread's handles and
/// phase. This is the interleaving model of the count protocol itself, one
/// atomic step at a time; `weak_word` is the weak count proper, displaced
/// by the sentinel while `weak_locked` holds.
pub struct ArcSys {
    pub strong_word: nat,
    pub weak_word: nat,
    pub weak_locked: bool,
    pub threads: Seq<ArcThread>,
}

/// How many owning handles exist, over all threads.
pub open spec fn sum_arcs(threads: Seq<ArcThread>) -> nat
    decreases threads.len(),
{
    if threads.len() == 0 {
        0
    } else {
        sum_arcs(threads.drop_last()) + threads.last().arcs
    }
}

/// How many weak handles exist, over all threads (the implicit weak
/// reference of the strong handles not included).
pub open spec fn sum_weaks(threads: Seq<ArcThread>) -> nat
    decreases threads.len(),
{
    if threads.len() == 0 {
        0
    } else {
        sum_weaks(threads.drop_last()) + threads.last().weaks
    }
}

/// How many threads hold the weak count at the sentinel.
pub open spec fn locked_count(threads: Seq<ArcThread>) -> nat
    decreases threads.len(),
{
    if threads.len() == 0 {
        0
    } else {
        locked_count(threads.drop_last()) + if threads.last().phase is WeakLocked {
            1nat
        } else {
            0nat
        }
    }
}

/// How many threads are between dropping the last owning handle and
/// releasing the implicit weak reference.
pub open spec fn releasing_count(threads: Seq<ArcThread>) -> nat
    decreases threads.len(),
{
    if threads.len() == 0 {
        0
    } else {
        releasing_count(threads.drop_last()) + if threads.last().phase is ReleasingImplicit {
            1nat
        } else {
            0nat
        }
    }
}

/// Whether the implicit weak reference of the strong handles is currently
/// alive: some owning handle exists, or the thread that dropped the last
/// one has not released it yet.
pub open spec fn implicit_weak(threads: Seq<ArcThread>) -> nat {
    if sum_arcs(threads) > 0 || releasing_count(threads) > 0 {
        1
    } else {
        0
    }
}

/// Updating one thread's entry moves each census by exactly the two
/// entries' contributions.
proof fn lemma_arc_sums_update(threads: Seq<ArcThread>, i: int, v: ArcThread)
    requires
        0 <= i < threads.len(),
    ensures
        sum_arcs(threads.update(i, v)) == sum_arcs(threads) - threads[i].arcs + v.arcs,
        sum_weaks(threads.update(i, v)) == sum_weaks(threads) - threads[i].weaks + v.weaks,
        locked_count(threads.update(i, v)) == locked_count(threads) - (
        if threads[i].phase is WeakLocked {
            1int
        } else {
            0int
        }) + (if v.phase is WeakLocked {
            1int
        } else {
            0int
        }),
        releasing_count(threads.update(i, v)) == releasing_count(threads) - (
        if threads[i].phase is ReleasingImplicit {
            1int
        } else {
            0int
        }) + (if v.phase is ReleasingImplicit {
            1int
        } else {
            0int
        }),
    decreases threads.len(),
{
    if i == threads.len() - 1 {
        assert(threads.update(i, v).drop_last() =~= threads.drop_last());
    } else {
        assert(threads.update(i, v).drop_last() =~= threads.drop_last().update(i, v));
        lemma_arc_sums_update(threads.drop_last(), i, v);
    }
}

/// One thread's entry contributes to each census.
proof fn lemma_arc_sums_member(threads: Seq<ArcThread>, i: int)
    requires
        0 <= i < threads.len(),
    ensures
        threads[i].arcs <= sum_arcs(threads),
        threads[i].weaks <= sum_weaks(threads),
        threads[i].phase is WeakLocked ==> locked_count(threads) >= 1,
        threads[i].phase is ReleasingImplicit ==> releasing_count(threads) >= 1,
    decreases threads.len(),
{
    if i != threads.len() - 1 {
        lemma_arc_sums_member(threads.drop_last(), i);
    }
}

/// Two distinct threads' entries contribute to each census together.
proof fn lemma_arc_sums_two_members(threads: Seq<ArcThread>, i: int, j: int)
    requires
        0 <= i < threads.len(),
        0 <= j < threads.len(),
        i != j,
    ensures
        threads[i].arcs + threads[j].arcs <= sum_arcs(threads),
        threads[i].weaks + threads[j].weaks <= sum_weaks(threads),
    decreases threads.len(),
{
    if i == threads.len() - 1 {
        lemma_arc_sums_member(threads.drop_last(), j);
    } else if j == threads.len() - 1 {
        lemma_arc_sums_member(threads.drop_last(), i);
    } else {
        lemma_arc_sums_two_members(threads.drop_last(), i, j);
    }
}

/// The starting state: a fresh allocation whose one owning handle is held
/// by one thread, every thread between operations.
pub open spec fn arc_init(s: ArcSys) -> bool {
    &&& s.strong_word == 1
    &&& s.weak_word == 1
    &&& !s.weak_locked
    &&& sum_arcs(s.threads) == 1
    &&& sum_weaks(s.threads) == 0
    &&& forall|i: int| 0 <= i < s.threads.len() ==> (#[trigger] s.threads[i]).phase is Running
}

/// One thread's strong clone: it holds an owning handle and gains another;
/// the strong count rises with it.
pub open spec fn step_clone(s: ArcSys, s2: ArcSys, t: int) -> bool {
    &&& 0 <= t < s.threads.len()
    &&& s.threads[t].phase is Running
    &&& s.threads[t].arcs >= 1
    &&& s2.strong_word == s.strong_word + 1
    &&& s2.weak_word == s.weak_word
    &&& s2.weak_locked == s.weak_locked
    &&& s2.threads == s.threads.update(
        t,
        ArcThread { arcs: s.threads[t].arcs + 1, ..s.threads[t] },
    )
}

/// One thread's strong drop: it surrenders an owning handle and the strong
/// count falls with it; the thread that took the count to 0 — the payload
/// is destroyed there — goes on to release the implicit weak reference.
pub open spec fn step_drop_strong(s: ArcSys, s2: ArcSys, t: int) -> bool {
    &&& 0 <= t < s.threads.len()
    &&& s.threads[t].phase is Running
    &&& s.threads[t].arcs >= 1
    &&& s.strong_word == s2.strong_word + 1
    &&& s2.weak_word == s.weak_word
    &&& s2.weak_locked == s.weak_locked
    &&& s2.threads == s.threads.update(
        t,
        ArcThread {
            arcs: (s.threads[t].arcs - 1) as nat,
            weaks: s.threads[t].weaks,
            phase: if s2.strong_word == 0 {
                ArcPhase::ReleasingImplicit
            } else {
                ArcPhase::Running
            },
        },
    )
}

/// The last owner's release of the implicit weak reference: the weak count
/// falls by one; at 0 the allocation is freed.
pub open spec fn step_drop_implicit(s: ArcSys, s2: ArcSys, t: int) -> bool {
    &&& 0 <= t < s.threads.len()
    &&& s.threads[t].phase is ReleasingImplicit
    &&& s2.strong_word == s.strong_word
    &&& s.weak_word == s2.weak_word + 1
    &&& s2.weak_locked == s.weak_locked
    &&& s2.threads == s.threads.update(t, ArcThread { phase: ArcPhase::Running, ..s.threads[t] })
}

/// One thread's downgrade: holding an owning handle and finding the weak
/// word free of the sentinel — it spins otherwise — it installs weak count
/// plus one and gains a weak handle.
pub open spec fn step_downgrade(s: ArcSys, s2: ArcSys, t: int) -> bool {
    &&& 0 <= t < s.threads.len()
    &&& s.threads[t].phase is Running
    &&& s.threads[t].arcs >= 1
    &&& !s.weak_locked
    &&& s2.strong_word == s.strong_word
    &&& s2.weak_word == s.weak_word + 1
    &&& s2.weak_locked == s.weak_locked
    &&& s2.threads == s.threads.update(
        t,
        ArcThread { weaks: s.threads[t].weaks + 1, ..s.threads[t] },
    )
}

/// One thread's weak clone: it holds a weak handle and gains another.
pub open spec fn step_weak_clone(s: ArcSys, s2: ArcSys, t: int) -> bool {
    &&& 0 <= t < s.threads.len()
    &&& s.threads[t].phase is Running
    &&& s.threads[t].weaks >= 1
    &&& s2.strong_word == s.strong_word
    &&& s2.weak_word == s.weak_word + 1
    &&& s2.weak_locked == s.weak_locked
    &&& s2.threads == s.threads.update(
        t,
        ArcThread { weaks: s.threads[t].weaks + 1, ..s.threads[t] },
    )
}

/// One thread's weak drop: it surrenders a weak handle.
pub open spec fn step_weak_drop(s: ArcSys, s2: ArcSys, t: int) -> bool {
    &&& 0 <= t < s.threads.len()
    &&& s.threads[t].phase is Running
    &&& s.threads[t].weaks >= 1
    &&& s2.strong_word == s.strong_word
    &&& s.weak_word == s2.weak_word + 1
    &&& s2.weak_locked == s.weak_locked
    &&& s2.threads == s.threads.update(
        t,
        ArcThread { weaks: (s.threads[t].weaks - 1) as nat, ..s.threads[t] },
    )
}

/// One thread's successful upgrade: it holds a weak handle, the strong
/// count is positive — an upgrade of a dead payload changes nothing and is
/// not modeled — and it gains an owning handle.
pub open spec fn step_upgrade(s: ArcSys, s2: ArcSys, t: int) -> bool {
    &&& 0 <= t < s.threads.len()
    &&& s.threads[t].phase is Running
    &&& s.threads[t].weaks >= 1
    &&& s.strong_word >= 1
    &&& s2.strong_word == s.strong_word + 1
    &&& s2.weak_word == s.weak_word
    &&& s2.weak_locked == s.weak_locked
    &&& s2.threads == s.threads.update(
        t,
        ArcThread { arcs: s.threads[t].arcs + 1, ..s.threads[t] },
    )
}

/// A unique-access check locks the weak count: holding an owning handle and
/// finding the weak word exactly 1, the thread installs the sentinel.
pub open spec fn step_lock_weak(s: ArcSys, s2: ArcSys, t: int) -> bool {
    &&& 0 <= t < s.threads.len()
    &&& s.threads[t].phase is Running
    &&& s.threads[t].arcs >= 1
    &&& !s.weak_locked
    &&& s.weak_word == 1
    &&& s2.strong_word == s.strong_word
    &&& s2.weak_word == s.weak_word
    &&& s2.weak_locked
    &&& s2.threads == s.threads.update(t, ArcThread { phase: ArcPhase::WeakLocked, ..s.threads[t] })
}

/// The unique-access check reads the strong count — the observation the
/// answer rests on — and restores the weak count behind it.
pub open spec fn step_unlock_weak(s: ArcSys, s2: ArcSys, t: int) -> bool {
    &&& 0 <= t < s.threads.len()
    &&& s.threads[t].phase is WeakLocked
    &&& s2.strong_word == s.strong_word
    &&& s2.weak_word == s.weak_word
    &&& !s2.weak_locked
    &&& s2.threads == s.threads.update(t, ArcThread { phase: ArcPhase::Running, ..s.threads[t] })
}

/// One atomic step of the protocol, by any thread.
pub open spec fn arc_step(s: ArcSys, s2: ArcSys) -> bool {
    exists|t: int|
        step_clone(s, s2, t) || step_drop_strong(s, s2, t) || step_drop_implicit(s, s2, t)
            || step_downgrade(s, s2, t) || step_weak_clone(s, s2, t) || step_weak_drop(s, s2, t)
            || step_upgrade(s, s2, t) || step_lock_weak(s, s2, t) || step_unlock_weak(s, s2, t)
}

/// The inductive invariant: the strong word is the exact census of owning
/// handles; the weak word is the census of weak handles plus the implicit
/// weak reference; the sentinel stands exactly while one thread holds it,
/// that thread holds an owning handle — and then no weak handle exists at
/// all, which is what makes the observation under the sentinel sound; and
/// the implicit release is a one-thread affair that no new owner can race.
pub open spec fn arc_inv(s: ArcSys) -> bool {
    &&& s.strong_word == sum_arcs(s.threads)
    &&& s.weak_word == sum_weaks(s.threads) + implicit_weak(s.threads)
    &&& locked_count(s.threads) == if s.weak_locked {
        1nat
    } else {
        0nat
    }
    &&& s.weak_locked ==> sum_weaks(s.threads) == 0 && s.weak_word == 1
    &&& releasing_count(s.threads) <= 1
    &&& releasing_count(s.threads) > 0 ==> sum_arcs(s.threads) == 0
    &&& forall|i: int|
        0 <= i < s.threads.len() && (#[trigger] s.threads[i]).phase is WeakLocked ==> s.threads[i].arcs
            >= 1
}

/// The starting state satisfies the invariant.
pub proof fn lemma_arc_init_inv(s: ArcSys)
    requires
        arc_init(s),
    ensures
        arc_inv(s),
{
    lemma_arc_phase_counts_zero(s.threads);
}

/// With every thread between operations, the phase censuses are 0.
proof fn lemma_arc_phase_counts_zero(threads: Seq<ArcThread>)
    requires
        forall|i: int| 0 <= i < threads.len() ==> (#[trigger] threads[i]).phase is Running,
    ensures
        locked_count(threads) == 0,
        releasing_count(threads) == 0,
    decreases threads.len(),
{
    if threads.len() > 0 {
        lemma_arc_phase_counts_zero(threads.drop_last());
    }
}

/// Every atomic step of the protocol, by any thread, preserves the
/// invariant. The load-bearing cases: a weak clone, weak drop or upgrade
/// under the sentinel is impossible because no weak handle exists then; a
/// downgrade is shut out by the sentinel itself; and the strong count
/// cannot reach 0 while a unique-access check is in progress, since the
/// checking thread holds an owning handle of its own.
pub proof fn lemma_arc_step_inv(s: ArcSys, s2: ArcSys)
    requires
        arc_inv(s),
        arc_step(s, s2),
    ensures
        arc_inv(s2),
{
    let t = choose|t: int|
        step_clone(s, s2, t) || step_drop_strong(s, s2, t) || step_drop_implicit(s, s2, t)
            || step_downgrade(s, s2, t) || step_weak_clone(s, s2, t) || step_weak_drop(s, s2, t)
            || step_upgrade(s, s2, t) || step_lock_weak(s, s2, t) || step_unlock_weak(s, s2, t);
    lemma_arc_sums_member(s.threads, t);
    lemma_arc_sums_update(s.threads, t, s2.threads[t]);
    if step_drop_strong(s, s2, t) {
        if s2.strong_word == 0 && s.weak_locked {
            lemma_locked_member_exists(s.threads);
            let j = choose|j: int|
                0 <= j < s.threads.len() && (#[trigger] s.threads[j]).phase is WeakLocked;
            lemma_arc_sums_two_members(s.threads, t, j);
            assert(false);
        }
        lemma_locked_arcs_preserved(s.threads, t, s2.threads[t]);
    } else if step_drop_implicit(s, s2, t) {
        if s.weak_locked {
            lemma_locked_member_exists(s.threads);
            let j = choose|j: int|
                0 <= j < s.threads.len() && (#[trigger] s.threads[j]).phase is WeakLocked;
            lemma_arc_sums_member(s.threads, j);
            assert(false);
        }
        lemma_locked_arcs_preserved(s.threads, t, s2.threads[t]);
    } else {
        lemma_locked_arcs_preserved(s.threads, t, s2.threads[t]);
    }
}

/// Replacing one thread's entry keeps "a locked thread holds an owning
/// handle" as long as the new entry keeps it too.
proof fn lemma_locked_arcs_preserved(threads: Seq<ArcThread>, t: int, v: ArcThread)
    requires
        0 <= t < threads.len(),
        forall|i: int|
            0 <= i < threads.len() && (#[trigger] threads[i]).phase is WeakLocked ==> threads[i].arcs
                >= 1,
        v.phase is WeakLocked ==> v.arcs >= 1,
    ensures
        forall|i: int|
            0 <= i < threads.update(t, v).len() && (#[trigger] threads.update(t, v)[i]).phase
                is WeakLocked ==> threads.update(t, v)[i].arcs >= 1,
{
    assert forall|i: int|
        0 <= i < threads.update(t, v).len() && (#[trigger] threads.update(t, v)[i]).phase
            is WeakLocked implies threads.update(t, v)[i].arcs >= 1 by {
        if i != t {
            assert(threads.update(t, v)[i] == threads[i]);
        }
    }
}

/// A positive locked census names a locked thread, which holds an owning
/// handle by the invariant's last clause; used where the strong count
/// reaching 0 must be ruled out.
proof fn lemma_locked_member_exists(threads: Seq<ArcThread>)
    requires
        locked_count(threads) >= 1,
    ensures
        exists|i: int|
            0 <= i < threads.len() && (#[trigger] threads[i]).phase is WeakLocked,
    decreases threads.len(),
{
    if threads.len() > 0 {
        if threads.last().phase is WeakLocked {
            assert(threads[threads.len() - 1].phase is WeakLocked);
        } else {
            lemma_locked_member_exists(threads.drop_last());
            let i = choose|i: int|
                0 <= i < threads.drop_last().len() && (#[trigger] threads.drop_last()[i]).phase
                    is WeakLocked;
            assert(threads[i].phase is WeakLocked);
        }
    }
}

/// Unique-mutation safety, at the observation itself: whenever a
/// unique-access check that holds the weak count at the sentinel reads
/// strong count 1, then at that very instant the checking thread's owning
/// handle is the only handle in existence — every other thread holds
/// nothing, and no weak handle exists anywhere. A concurrent downgrade can
/// never produce a stale "unique" answer: either its weak handle already
/// exists (and the weak count was not 1 at the sentinel's installation) or
/// it is still spinning outside the sentinel window.
pub proof fn lemma_arc_unique_observation(s: ArcSys, s2: ArcSys, t: int)
    requires
        arc_inv(s),
        step_unlock_weak(s, s2, t),
        s.strong_word == 1,
    ensures
        sum_arcs(s.threads) == 1,
        sum_weaks(s.threads) == 0,
        s.threads[t].arcs == 1,
        s.threads[t].weaks == 0,
        forall|i: int|
            0 <= i < s.threads.len() && i != t ==> (#[trigger] s.threads[i]).arcs == 0
                && s.threads[i].weaks == 0,
{
    lemma_arc_sums_member(s.threads, t);
    assert forall|i: int|
        0 <= i < s.threads.len() && i != t implies (#[trigger] s.threads[i]).arcs == 0
            && s.threads[i].weaks == 0 by {
        lemma_arc_sums_two_members(s.threads, i, t);
    }
}

/// Whether the step from the `k`th state of a trace to the next is one
/// atomic protocol step.
pub open spec fn arc_trace_step_at(trace: Seq<ArcSys>, k: int) -> bool {
    arc_step(trace[k], trace[k + 1])
}

/// The count protocol's invariant holds in every state of every execution:
/// any number of threads cloning, dropping, downgrading, upgrading and
/// checking uniqueness from a fresh allocation, in any interleaving. With
/// [`lemma_arc_unique_observation`], every unique answer any of them ever
/// observes under the sentinel is sound.
pub proof fn lemma_arc_trace_inv(trace: Seq<ArcSys>)
    requires
        trace.len() > 0,
        arc_init(trace[0]),
        forall|k: int| 0 <= k < trace.len() - 1 ==> #[trigger] arc_trace_step_at(trace, k),
    ensures
        forall|k: int| 0 <= k < trace.len() ==> #[trigger] arc_inv(trace[k]),
    decreases trace.len(),
{
    if trace.len() == 1 {
        lemma_arc_init_inv(trace[0]);
    } else {
        let prefix = trace.drop_last();
        assert forall|k: int| 0 <= k < prefix.len() - 1 implies #[trigger] arc_trace_step_at(
            prefix,
            k,
        ) by {
            assert(arc_trace_step_at(trace, k));
            assert(prefix[k] == trace[k]);
            assert(prefix[k + 1] == trace[k + 1]);
        }
        lemma_arc_trace_inv(prefix);
        assert forall|k: int| 0 <= k < trace.len() implies #[trigger] arc_inv(trace[k]) by {
            if k < trace.len() - 1 {
                assert(arc_inv(prefix[k]));
                assert(prefix[k] == trace[k]);
            } else {
                assert(arc_inv(prefix[k - 1]));
                assert(prefix[k - 1] == trace[k - 1]);
                assert(arc_trace_step_at(trace, k - 1));
                lemma_arc_step_inv(trace[k - 1], trace[k]);
            }
        }
    }
}

/// A small verified exercise of the handle family: with a weak reference
/// outstanding, unique-mutable access is refused; once that weak reference
/// is surrendered, it is granted.
pub fn arc_test() {
    let (mut data, arc) = Arc::new(3u64);
    let weak = arc.downgrade(&mut data);
    let denied = arc.get_mut(&mut data);
    assert(denied is None);
    weak.drop(&mut data);
    let granted = arc.get_mut(&mut data);
    assert(granted is Some);
    arc.drop(&mut data);
}

/// Reference-counting round trip: allocate, clone once, drop both. The
/// payload's destructor has not run after the first drop, runs exactly at
/// the second — the payload slot turns `None` there and only there — and
/// the second drop also releases the implicit weak reference, freeing the
/// allocation.
pub proof fn lemma_refcount_round_trip<T>(value: T)
    ensures
        spec_clone(spec_new(value)).strong() == 2,
        spec_drop(spec_clone(spec_new(value)))@ == Some(value),
        spec_drop(spec_clone(spec_new(value))).strong() == 1,
        spec_drop(spec_drop(spec_clone(spec_new(value))))@ is None,
        spec_drop(spec_drop(spec_clone(spec_new(value)))).strong() == 0,
        !spec_drop(spec_drop(spec_clone(spec_new(value)))).is_allocated(),
{
}

/// Weak upgrade semantics: an upgrade succeeds exactly while an owning
/// handle keeps the strong count positive — and then yields one more owner
/// over the same payload — and fails exactly when the payload is gone,
/// which is strictly after every owning handle has dropped.
pub proof fn lemma_weak_upgrade<T>(d: ArcData<T>)
    requires
        d.wf(),
    ensures
        spec_upgrade(d).1 <==> d.strong() > 0,
        d.strong() > 0 ==> spec_upgrade(d).0.strong() == d.strong() + 1 && spec_upgrade(d).0@
            == d@ && d@ is Some,
        d.strong() == 0 ==> spec_upgrade(d).0 == d && d@ is None,
{
}

/// Unique-mutation safety: uniqueness demands both counts 1 at once, so a
/// weak count above 1 — any outstanding weak reference, in particular one a
/// concurrent downgrade just created — forces a "not unique" answer, and a
/// strong count above 1 does the same; a unique answer implies the payload
/// is alive and this handle is its only owner.
pub proof fn lemma_unique_mutation<T>(d: ArcData<T>)
    requires
        d.wf(),
        d.strong() >= 1,
    ensures
        d.weak() != 1 ==> !d.is_unique(),
        d.strong() != 1 ==> !d.is_unique(),
        d.is_unique() ==> d@ is Some && d.strong() == 1 && d.weak() == 1,
{
}

} // verus!
