use core::sync::atomic::{AtomicI32, Ordering};
use sync_primitives::atomics::{
    cas_loop, cas_strong, cas_weak, fetch_add_atomic, fetch_or_atomic, fetch_store, load,
    load_atomic, test_acqrel_fence, test_acquire_fence, test_compile_acqrel_fence,
    test_compile_acquire_fence, test_compile_release_fence, test_compile_seqcst,
    test_release_fence, test_seqcst,
};
use sync_primitives::spin::SpinLock;

#[test]
fn plain_and_atomic_loads() {
    let v: i32 = -7;
    assert_eq!(load(&v), -7);
    let a = AtomicI32::new(-7);
    assert_eq!(load_atomic(&a), -7);
}

#[test]
fn fetch_operations() {
    let a = AtomicI32::new(1);
    fetch_add_atomic(&a);
    assert_eq!(a.load(Ordering::Relaxed), 11);

    let b = AtomicI32::new(4);
    assert_eq!(fetch_or_atomic(&b), 4);
    assert_eq!(b.load(Ordering::Relaxed), 14);

    let c = AtomicI32::new(1);
    fetch_store(&c);
    assert_eq!(c.load(Ordering::Relaxed), 6);
}

#[test]
fn cas_operations() {
    // With no other thread in sight the loop's first attempt wins: the
    // previous value comes back and the bits are installed.
    let a = AtomicI32::new(4);
    assert_eq!(cas_loop(&a), 4);
    assert_eq!(a.load(Ordering::Relaxed), 14);

    let b = AtomicI32::new(5);
    cas_strong(&b);
    assert_eq!(b.load(Ordering::Relaxed), 6);

    // The weak form may fail spuriously even uncontended.
    let c = AtomicI32::new(5);
    cas_weak(&c);
    let v = c.load(Ordering::Relaxed);
    assert!(v == 5 || v == 6);

    let d = AtomicI32::new(9);
    cas_strong(&d);
    assert_eq!(d.load(Ordering::Relaxed), 9);
}

#[test]
fn fences_run() {
    test_acquire_fence();
    test_release_fence();
    test_acqrel_fence();
    test_seqcst();
    test_compile_acquire_fence();
    test_compile_release_fence();
    test_compile_acqrel_fence();
    test_compile_seqcst();
}

#[test]
fn spin_lock_round_trip() {
    let mut l = SpinLock::new();
    assert!(!l.locked());
    let g = l.lock();
    assert!(l.locked());
    l.unlock(g);
    assert!(!l.locked());
    let g = l.lock();
    l.unlock(g);
}
