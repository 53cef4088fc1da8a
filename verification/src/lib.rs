//! Low-level concurrency primitives: a spin lock, a futex-based
//! mutual-exclusion lock, a condition variable, a reader-writer lock,
//! oneshot message channels, and an atomically reference-counted
//! shared-ownership pointer with weak references.
//!
//! Each blocking primitive comes in two forms. The *raw* form runs the real
//! lock-word protocol over `core::sync::atomic` words and the OS
//! wait-on-address facility, as single verified steps an embedding composes
//! into blocking loops; nothing can be stated about a word other threads
//! race on, so those steps carry no value contracts. The *owned* form
//! carries the protected value and exposes every transition of the same
//! word protocol through `&mut self`, where each transition is fully
//! specified and the protocol laws — mutual exclusion, no lost wakeups,
//! reader concurrency with writer exclusivity, writer non-starvation, and
//! the reference-counting lifecycle — are proved.

pub mod arc;
pub mod atomics;
pub mod channel;
pub mod condvar;
pub mod futex;
pub mod mutex;
pub mod rwlock;
pub mod spin;
