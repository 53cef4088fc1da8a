use sync_primitives::condvar::Condvar;
use sync_primitives::mutex::Mutex;

#[test]
fn wait_is_completed_by_a_notification() {
    let mut m = Mutex::new(0u32);
    let mut cv = Condvar::new();

    // The waiter holds the guard, sees nothing to do yet, and begins a wait:
    // it samples the generation and releases the mutex.
    let g = m.lock();
    assert_eq!(*g.get(), 0);
    let token = cv.wait_begin(&mut m, g);
    assert!(!m.locked());

    // The notifier can now take the mutex, change the awaited state, release,
    // and notify; the generation moves past the waiter's sample.
    let mut g = m.lock();
    g.set(123);
    m.unlock(g);
    cv.notify_one();

    // The waiter wakes, re-acquires the mutex, and sees the change.
    let g = cv.wait_complete(&mut m, token);
    assert_eq!(*g.get(), 123);
    m.unlock(g);
}

#[test]
fn notify_without_waiters_is_a_no_op() {
    let mut m = Mutex::new(5u32);
    let mut cv = Condvar::new();
    // No waiter is registered: the generation must not move, so a waiter that
    // begins afterwards still samples a generation no past notify consumed.
    cv.notify_one();
    cv.notify_all();
    let g = m.lock();
    let token = cv.wait_begin(&mut m, g);
    cv.notify_all();
    let g = cv.wait_complete(&mut m, token);
    assert_eq!(*g.get(), 5);
    m.unlock(g);
}

#[test]
fn several_waiters_are_released_by_notify_all() {
    let mut m = Mutex::new(0u8);
    let mut cv = Condvar::new();

    let g = m.lock();
    let first = cv.wait_begin(&mut m, g);
    let g = m.lock();
    let second = cv.wait_begin(&mut m, g);

    let mut g = m.lock();
    g.set(7);
    m.unlock(g);
    cv.notify_all();

    let g = cv.wait_complete(&mut m, first);
    assert_eq!(*g.get(), 7);
    m.unlock(g);
    let g = cv.wait_complete(&mut m, second);
    assert_eq!(*g.get(), 7);
    m.unlock(g);
}
