//! The OS wait/wake-on-address substrate.
//!
//! A thread may block while a 32-bit word holds an expected value, and
//! another thread may wake one or all threads blocked on that word. The
//! primitive gives no memory-ordering guarantee of its own and permits
//! spurious wakeups, so nothing is stated about these calls beyond their
//! types: every caller re-checks its condition in a loop around them.

use vstd::prelude::*;
use core::sync::atomic::AtomicU32;

verus! {

/// Relies on `atomic_wait::wait`: blocks the calling thread while the word
/// equals `value`; returns when the word changed, a wake targeted it, or
/// spuriously.
#[verifier::external_body]
pub fn wait(a: &AtomicU32, value: u32) {
    atomic_wait::wait(a, value)
}

/// Relies on `atomic_wait::wake_one`: wakes at most one thread blocked on
/// the word; a no-op when none is blocked.
#[verifier::external_body]
pub fn wake_one(a: &AtomicU32) {
    atomic_wait::wake_one(a)
}

/// Relies on `atomic_wait::wake_all`: wakes every thread blocked on the
/// word; a no-op when none is blocked.
#[verifier::external_body]
pub fn wake_all(a: &AtomicU32) {
    atomic_wait::wake_all(a)
}

} // verus!
