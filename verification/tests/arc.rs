use sync_primitives::arc::{Arc, Weak};

#[test]
fn test() {
    // Two owning handles over one payload: the payload must survive the
    // first drop and go exactly at the second.
    let (mut d, x) = Arc::new(("hello", 0u8));
    let y = x.clone(&mut d);
    assert_eq!(d.strong_count(), 2);
    assert_eq!(d.weak_count(), 1);

    assert_eq!(x.deref(&d).0, "hello");
    assert_eq!(y.deref(&d).0, "hello");

    x.drop(&mut d);
    // One handle is gone; the payload has not been destroyed.
    assert_eq!(d.strong_count(), 1);
    assert_eq!(y.deref(&d).0, "hello");

    y.drop(&mut d);
    // Now the payload is destroyed and the allocation freed.
    assert_eq!(d.strong_count(), 0);
    assert_eq!(d.weak_count(), 0);
}

#[test]
fn test_weak() {
    // One owning handle, two weak references.
    let (mut d, x) = Arc::new(("hello", 0u8));
    let y = x.downgrade(&mut d);
    let z = x.downgrade(&mut d);
    assert_eq!(d.strong_count(), 1);
    assert_eq!(d.weak_count(), 3);

    // While the owning handle lives, the weak references upgrade.
    let y2 = y.upgrade(&mut d).unwrap();
    assert_eq!(y2.deref(&d).0, "hello");
    y2.drop(&mut d);
    y.drop(&mut d);

    assert_eq!(x.deref(&d).0, "hello");
    let z2 = z.upgrade(&mut d);
    assert!(z2.is_some());
    z2.unwrap().drop(&mut d);

    x.drop(&mut d);
    // The payload went with the last owning handle — exactly once — and the
    // remaining weak reference can no longer upgrade.
    assert_eq!(d.strong_count(), 0);
    assert!(z.upgrade(&mut d).is_none());
    z.drop(&mut d);
    assert_eq!(d.weak_count(), 0);
}

#[test]
fn round_trip_destroys_exactly_once() {
    // Allocate, clone once, drop both.
    let (mut d, a) = Arc::new(String::from("payload"));
    let b = a.clone(&mut d);
    a.drop(&mut d);
    assert_eq!(d.strong_count(), 1);
    assert_eq!(b.deref(&d), "payload");
    b.drop(&mut d);
    assert_eq!(d.strong_count(), 0);
    assert_eq!(d.weak_count(), 0);
}

#[test]
fn get_mut_only_when_unique() {
    let (mut d, mut a) = Arc::new(7u64);

    // Unique: one strong handle, no weak reference.
    {
        let p = a.get_mut(&mut d);
        assert!(p.is_some());
        *p.unwrap() = 8;
    }
    assert_eq!(*a.deref(&d), 8);

    // A second strong handle forbids it.
    let b = a.clone(&mut d);
    assert!(a.get_mut(&mut d).is_none());
    b.drop(&mut d);

    // An outstanding weak reference forbids it too: a downgrade racing a
    // unique-access check can never produce a stale "unique" answer.
    let w: Weak = a.downgrade(&mut d);
    assert!(a.get_mut(&mut d).is_none());
    w.drop(&mut d);

    let p = a.get_mut(&mut d);
    assert_eq!(*p.unwrap(), 8);
    a.drop(&mut d);
}

#[test]
fn weak_outlives_the_payload_but_not_the_allocation() {
    let (mut d, a) = Arc::new(3u32);
    let w = a.downgrade(&mut d);
    a.drop(&mut d);
    // The payload is gone, the allocation is not: the weak count holds it.
    assert_eq!(d.strong_count(), 0);
    assert_eq!(d.weak_count(), 1);
    assert!(w.upgrade(&mut d).is_none());
    let w2 = w.clone(&mut d);
    assert_eq!(d.weak_count(), 2);
    w2.drop(&mut d);
    w.drop(&mut d);
    assert_eq!(d.weak_count(), 0);
}
