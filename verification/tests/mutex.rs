use sync_primitives::mutex::{Mutex, MutexGuard};

fn add_one(m: &mut Mutex<u64>) {
    let mut g = m.lock();
    let v = *g.get();
    g.set(v + 1);
    m.unlock(g);
}

#[test]
fn test_mutex() {
    let mut m = Mutex::new(0u64);
    std::hint::black_box(&m);
    let start = std::time::Instant::now();
    for _ in 0..5_000_000u64 {
        add_one(&mut m);
    }
    let duration = start.elapsed();
    let g = m.lock();
    assert_eq!(*g.get(), 5_000_000);
    println!("locked {} times in {:?}", *g.get(), duration);
    m.unlock(g);
}

#[test]
fn mutex_guard_owns_the_value() {
    let mut m = Mutex::new(41u32);
    assert!(!m.locked());
    let mut g = m.lock();
    assert!(m.locked());
    assert_eq!(*g.get(), 41);
    let old = g.replace(42);
    assert_eq!(old, 41);
    m.unlock(g);
    assert!(!m.locked());
    let g = m.lock();
    assert_eq!(*g.get(), 42);
    m.unlock(g);
}

#[test]
fn mutex_guard_set_overwrites() {
    let mut m = Mutex::new(String::new());
    let mut g: MutexGuard<String> = m.lock();
    g.set(String::from("inside the critical section"));
    m.unlock(g);
    let g = m.lock();
    assert_eq!(g.get(), "inside the critical section");
    m.unlock(g);
}
