//! The raw word engines under real threads: the blocking loops the library
//! leaves to its embedding are composed here from the verified steps.

use core::sync::atomic::{AtomicU32, AtomicU64, Ordering};
use sync_primitives::condvar::RawCondvar;
use sync_primitives::futex;
use sync_primitives::mutex::RawMutex;
use sync_primitives::rwlock::RawRwlock;

fn mutex_acquire(m: &RawMutex) {
    if m.try_lock() {
        return;
    }
    loop {
        m.spin();
        if m.try_lock() {
            return;
        }
        if m.lock_step() {
            return;
        }
    }
}

fn read_acquire(l: &RawRwlock) {
    loop {
        if l.read_step() {
            return;
        }
    }
}

fn write_acquire(l: &RawRwlock) {
    loop {
        if l.write_step() {
            return;
        }
    }
}

#[test]
fn raw_mutex_mutual_exclusion() {
    let m = RawMutex::new();
    let counter = AtomicU64::new(0);
    crossbeam_utils::thread::scope(|s| {
        for _ in 0..4 {
            s.spawn(|_| {
                for _ in 0..50_000u32 {
                    mutex_acquire(&m);
                    // A plain read-modify-write: only mutual exclusion keeps
                    // increments from being lost.
                    let v = counter.load(Ordering::Relaxed);
                    counter.store(v + 1, Ordering::Relaxed);
                    m.unlock();
                }
            });
        }
    })
    .unwrap();
    assert_eq!(counter.load(Ordering::Relaxed), 200_000);
}

#[test]
fn raw_condvar_no_lost_wakeup() {
    // One waiter and one notifier per round; a lost wakeup would deadlock a
    // round and time the test out.
    for _ in 0..10_000u32 {
        let m = RawMutex::new();
        let cv = RawCondvar::new();
        let items = AtomicU32::new(0);
        crossbeam_utils::thread::scope(|s| {
            s.spawn(|_| {
                mutex_acquire(&m);
                while items.load(Ordering::Relaxed) == 0 {
                    cv.wait_step(&m);
                    mutex_acquire(&m);
                }
                items.store(0, Ordering::Relaxed);
                m.unlock();
            });
            s.spawn(|_| {
                mutex_acquire(&m);
                items.store(1, Ordering::Relaxed);
                m.unlock();
                cv.notify_one();
            });
        })
        .unwrap();
        assert_eq!(items.load(Ordering::Relaxed), 0);
    }
}

#[test]
fn raw_rwlock_readers_see_consistent_pairs() {
    let l = RawRwlock::new();
    let a = AtomicU64::new(0);
    let b = AtomicU64::new(0);
    crossbeam_utils::thread::scope(|s| {
        for _ in 0..2 {
            s.spawn(|_| {
                for _ in 0..20_000u32 {
                    write_acquire(&l);
                    let v = a.load(Ordering::Relaxed);
                    a.store(v + 1, Ordering::Relaxed);
                    let w = b.load(Ordering::Relaxed);
                    b.store(w + 1, Ordering::Relaxed);
                    l.write_release();
                }
            });
        }
        for _ in 0..4 {
            s.spawn(|_| {
                for _ in 0..20_000u32 {
                    read_acquire(&l);
                    // The two counters move only together under the write
                    // lock, so a reader must never see them apart.
                    let va = a.load(Ordering::Relaxed);
                    let vb = b.load(Ordering::Relaxed);
                    assert_eq!(va, vb);
                    l.read_release();
                }
            });
        }
    })
    .unwrap();
    assert_eq!(a.load(Ordering::Relaxed), 40_000);
    assert_eq!(b.load(Ordering::Relaxed), 40_000);
}

#[test]
fn futex_calls_with_nobody_blocked() {
    // Waking with no waiters is a no-op, and a wait against a value the word
    // does not hold returns at once.
    let word = AtomicU32::new(1);
    futex::wake_one(&word);
    futex::wake_all(&word);
    futex::wait(&word, 0);
    assert_eq!(word.load(Ordering::Relaxed), 1);
}
