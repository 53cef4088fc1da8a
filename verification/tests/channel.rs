use sync_primitives::channel::{channel, Channel, MyStr};

#[test]
fn channel_delivers_one_message() {
    let mut c = Channel::new();
    assert!(!c.is_ready());
    c.send(MyStr::new("hello world!"));
    assert!(c.is_ready());
    let m = c.receive();
    assert_eq!(m.text(), "hello world!");
    assert!(!c.is_ready());
}

#[test]
fn sender_and_receiver_halves() {
    let (mut c, tx, rx) = channel();
    assert!(!rx.is_ready(&c));
    tx.send(&mut c, "hello world!");
    assert!(rx.is_ready(&c));
    let m = rx.receive(&mut c);
    assert_eq!(m, "hello world!");
}

#[test]
fn split_resets_the_channel() {
    let mut c = Channel::new();
    c.send(41u32);
    // An unreceived message is discarded by the reset, as reusing the
    // channel's storage demands.
    let (tx, rx) = c.split();
    assert!(!rx.is_ready(&c));
    tx.send(&mut c, 42u32);
    assert!(rx.is_ready(&c));
    assert_eq!(rx.receive(&mut c), 42);
}

#[test]
fn my_str_wraps_a_borrowed_string() {
    let m = MyStr::new("hello");
    assert_eq!(m.text(), "hello");
}
