//! Small atomic operations used when inspecting what single machine
//! instructions the compiler emits for each kind of atomic access, plus
//! the fence operations the rest of the crate relies on.
//!
//! A value inside a shared atomic can be changed by any thread at any time,
//! so none of these functions can promise anything about the values they
//! load or store. The fence calls stand behind trusted wrappers, one per
//! memory ordering, because the std functions panic on the relaxed
//! ordering: each wrapper fixes one ordering the documentation accepts.

use vstd::prelude::*;
use core::sync::atomic::{AtomicI32, Ordering};

verus! {

/// Relies on `core::hint::spin_loop`: a scheduling hint inside busy-wait
/// loops; has no observable effect.
pub assume_specification [ core::hint::spin_loop ]();

/// Reads a plain shared integer; a shared reference is immutable, so the
/// result is the pointee.
pub fn load(x: &i32) -> (r: i32)
    ensures
        r == *x,
{
    *x
}

/// Reads an atomic integer; another thread may store to it at any moment,
/// so nothing relates the result to any earlier observation.
pub fn load_atomic(x: &AtomicI32) -> i32 {
    x.load(Ordering::Relaxed)
}

/// Adds 10 to an atomic integer in one indivisible step, wrapping around on
/// overflow.
pub fn fetch_add_atomic(x: &AtomicI32) {
    x.fetch_add(10, Ordering::Relaxed);
}

/// Ors 10 into an atomic integer in one indivisible step, returning the
/// previous value.
pub fn fetch_or_atomic(x: &AtomicI32) -> i32 {
    x.fetch_or(10, Ordering::Relaxed)
}

/// The same or-10 operation written as a compare-and-swap loop: read a
/// value, attempt to install it with bit 1 and bit 3 set, and retry with
/// the fresher value whenever another thread moved the word first. The
/// retries are bounded; under adversarial contention the loop falls back to
/// the single fetch-or instruction, which installs the same bits and
/// likewise returns the previous value.
pub fn cas_loop(x: &AtomicI32) -> i32 {
    let mut current = x.load(Ordering::Relaxed);
    let mut tries: u32 = 64;
    while tries > 0
        invariant
            tries <= 64,
        decreases tries,
    {
        tries = tries - 1;
        let replacement = current | 10;
        match x.compare_exchange(current, replacement, Ordering::Relaxed, Ordering::Relaxed) {
            Ok(v) => {
                return v;
            }
            Err(v) => {
                current = v;
            }
        }
    }
    x.fetch_or(10, Ordering::Relaxed)
}

/// A single weak compare-and-swap of 5 to 6; it may fail spuriously and the
/// result is discarded.
pub fn cas_weak(x: &AtomicI32) {
    let _ = x.compare_exchange_weak(5, 6, Ordering::Relaxed, Ordering::Relaxed);
}

/// A single strong compare-and-swap of 5 to 6; the result is discarded.
pub fn cas_strong(x: &AtomicI32) {
    let _ = x.compare_exchange(5, 6, Ordering::Relaxed, Ordering::Relaxed);
}

/// An unconditional atomic exchange to 6.
pub fn fetch_store(x: &AtomicI32) {
    x.swap(6, Ordering::Relaxed);
}

/// An acquire fence on its own, for instruction inspection. Relies on
/// `core::sync::atomic::fence` with the acquire ordering, on which it is
/// documented not to panic; no value is read or written.
#[verifier::external_body]
pub fn test_acquire_fence() {
    core::sync::atomic::fence(Ordering::Acquire);
}

/// A release fence on its own, for instruction inspection. Relies on
/// `core::sync::atomic::fence` with the release ordering, on which it is
/// documented not to panic; no value is read or written.
#[verifier::external_body]
pub fn test_release_fence() {
    core::sync::atomic::fence(Ordering::Release);
}

/// An acquire-release fence on its own, for instruction inspection. Relies
/// on `core::sync::atomic::fence` with the acquire-release ordering, on
/// which it is documented not to panic; no value is read or written.
#[verifier::external_body]
pub fn test_acqrel_fence() {
    core::sync::atomic::fence(Ordering::AcqRel);
}

/// A sequentially consistent fence on its own, for instruction inspection.
/// Relies on `core::sync::atomic::fence` with the sequentially consistent
/// ordering, on which it is documented not to panic; no value is read or
/// written.
#[verifier::external_body]
pub fn test_seqcst() {
    core::sync::atomic::fence(Ordering::SeqCst);
}

/// An acquire compiler fence on its own, for instruction inspection. Relies
/// on `core::sync::atomic::compiler_fence` with the acquire ordering, on
/// which it is documented not to panic; it restricts compiler reordering
/// only.
#[verifier::external_body]
pub fn test_compile_acquire_fence() {
    core::sync::atomic::compiler_fence(Ordering::Acquire);
}

/// A release compiler fence on its own, for instruction inspection. Relies
/// on `core::sync::atomic::compiler_fence` with the release ordering, on
/// which it is documented not to panic; it restricts compiler reordering
/// only.
#[verifier::external_body]
pub fn test_compile_release_fence() {
    core::sync::atomic::compiler_fence(Ordering::Release);
}

/// An acquire-release compiler fence on its own, for instruction
/// inspection. Relies on `core::sync::atomic::compiler_fence` with the
/// acquire-release ordering, on which it is documented not to panic; it
/// restricts compiler reordering only.
#[verifier::external_body]
pub fn test_compile_acqrel_fence() {
    core::sync::atomic::compiler_fence(Ordering::AcqRel);
}

/// A sequentially consistent compiler fence on its own, for instruction
/// inspection. Relies on `core::sync::atomic::compiler_fence` with the
/// sequentially consistent ordering, on which it is documented not to
/// panic; it restricts compiler reordering only.
#[verifier::external_body]
pub fn test_compile_seqcst() {
    core::sync::atomic::compiler_fence(Ordering::SeqCst);
}

} // verus!
