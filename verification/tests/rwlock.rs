use sync_primitives::rwlock::Rwlock;

#[test]
fn readers_coexist() {
    let mut l = Rwlock::new(10u32);
    let g1 = l.read();
    let g2 = l.read();
    let g3 = l.read();
    // Three read critical sections overlap: all see the value in place.
    assert_eq!(l.reader_count(), 3);
    assert_eq!(*l.data(), 10);
    l.read_release(g1);
    l.read_release(g2);
    assert_eq!(l.reader_count(), 1);
    assert_eq!(*l.data(), 10);
    l.read_release(g3);
    assert_eq!(l.reader_count(), 0);
}

#[test]
fn writer_excludes_readers_and_writers() {
    let mut l = Rwlock::new(1u32);
    assert!(l.readable());
    assert!(l.writable());
    let mut w = l.write();
    // While the write guard is held, nobody else may enter.
    assert!(l.write_locked());
    assert!(!l.readable());
    assert!(!l.writable());
    assert_eq!(l.reader_count(), 0);
    w.set(2);
    l.write_release(w);
    assert!(!l.write_locked());
    assert_eq!(*l.data(), 2);
    assert!(l.readable());
    assert!(l.writable());
}

#[test]
fn waiting_writer_blocks_new_readers_and_gets_its_turn() {
    let mut l = Rwlock::new(0u32);
    let g1 = l.read();
    let g2 = l.read();
    // A writer arrives, finds readers, and marks itself waiting: from this
    // point no new reader may take the fast path.
    l.mark_writer_waiting();
    assert!(!l.readable());
    assert!(!l.writable());
    // Exactly as many release events as there are readers later, the writer
    // may acquire: the last reader clears the waiting bit on its way out.
    l.read_release(g1);
    assert!(!l.readable());
    assert!(!l.writable());
    l.read_release(g2);
    assert!(l.writable());
    let mut w = l.write();
    w.set(9);
    l.write_release(w);
    assert_eq!(*l.data(), 9);
}

#[test]
fn write_guard_round_trips_the_value() {
    let mut l = Rwlock::new(String::from("before"));
    let mut w = l.write();
    assert_eq!(w.get(), "before");
    w.set(String::from("after"));
    l.write_release(w);
    let g = l.read();
    assert_eq!(l.data(), "after");
    l.read_release(g);
}
