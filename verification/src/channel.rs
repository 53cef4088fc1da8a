//! Oneshot channel: hands a single value from one party to another.
//!
//! The channel is one message slot and one small state word: empty, being
//! written, ready, being read. Sending is allowed once, on an empty
//! channel; receiving is allowed once, after the message is ready. An
//! unverified form would report either misuse by panicking; here both are
//! excluded by precondition and every remaining transition is exact. The
//! [`Sender`] and [`Receiver`] tokens are consumed by their one permitted
//! call, which is the type-level form of the same discipline.

use vstd::prelude::*;

verus! {

/// The state word of an empty channel.
pub const EMPTY: u8 = 0;

/// The state word while the message is being written.
pub const WRITING: u8 = 1;

/// The state word once the message is ready to receive.
pub const READY: u8 = 2;

/// The state word once the message has been taken out.
pub const READING: u8 = 3;

/// A oneshot channel: one message slot guarded by a four-valued state
/// word. Its view is the slot: `Some` exactly while a message is ready.
pub struct Channel<T> {
    state: u8,
    message: Option<T>,
}

impl<T> View for Channel<T> {
    type V = Option<T>;

    closed spec fn view(&self) -> Option<T> {
        self.message
    }
}

impl<T> Channel<T> {
    /// The state word is one of the four protocol values and the slot is
    /// full exactly in the ready state.
    pub closed spec fn wf(self) -> bool {
        self.state <= READING && (self.message is Some <==> self.state == READY)
    }

    /// The current protocol state.
    pub closed spec fn state(self) -> u8 {
        self.state
    }

    /// A fresh, empty channel.
    pub fn new() -> (c: Channel<T>)
        ensures
            c.wf(),
            c.state() == EMPTY,
            c@ is None,
    {
        Channel { state: EMPTY, message: None }
    }

    /// Puts the one message in: empty, through writing, to ready. Enabled
    /// only on an empty channel: sending twice is the misuse a runtime
    /// check would answer with a panic, excluded here by precondition.
    pub fn send(&mut self, message: T)
        requires
            old(self).wf(),
            old(self).state() == EMPTY,
        ensures
            final(self).wf(),
            final(self).state() == READY,
            final(self)@ == Some(message),
    {
        self.state = WRITING;
        self.message = Some(message);
        self.state = READY;
    }

    /// Whether a message is ready to receive.
    pub fn is_ready(&self) -> (r: bool)
        ensures
            r == (self.state() == READY),
    {
        self.state == READY
    }

    /// Takes the one message out: ready to read-out. Enabled only once a
    /// message is ready: receiving early or twice is the misuse a runtime
    /// check would answer with a panic, excluded here by precondition.
    pub fn receive(&mut self) -> (message: T)
        requires
            old(self).wf(),
            old(self).state() == READY,
        ensures
            final(self).wf(),
            final(self).state() == READING,
            final(self)@ is None,
            (*old(self))@ == Some(message),
    {
        self.state = READING;
        let message = self.message.take();
        message.unwrap()
    }

    /// Resets the channel for reuse and hands out a fresh token pair; a
    /// message that was sent but never received is dropped here, with the
    /// old state.
    pub fn split(&mut self) -> (r: (Sender, Receiver))
        ensures
            final(self).wf(),
            final(self).state() == EMPTY,
            final(self)@ is None,
    {
        self.state = EMPTY;
        self.message = None;
        (Sender { token: () }, Receiver { token: () })
    }
}

/// The sending half: consumed by its one permitted send, minted only with
/// a channel.
pub struct Sender {
    token: (),
}

/// The receiving half: consumed by its one permitted receive, minted only
/// with a channel.
pub struct Receiver {
    token: (),
}

/// A fresh channel with its token pair.
pub fn channel<T>() -> (r: (Channel<T>, Sender, Receiver))
    ensures
        r.0.wf(),
        r.0.state() == EMPTY,
        r.0@ is None,
{
    (Channel::new(), Sender { token: () }, Receiver { token: () })
}

impl Sender {
    /// Puts the one message in, consuming the sending half: the token makes
    /// a second send unrepresentable rather than a runtime panic.
    pub fn send<T>(self, channel: &mut Channel<T>, message: T)
        requires
            old(channel).wf(),
            old(channel).state() == EMPTY,
        ensures
            final(channel).wf(),
            final(channel).state() == READY,
            final(channel)@ == Some(message),
    {
        channel.send(message);
    }
}

impl Receiver {
    /// Whether a message is ready to receive.
    pub fn is_ready<T>(&self, channel: &Channel<T>) -> (r: bool)
        ensures
            r == (channel.state() == READY),
    {
        channel.is_ready()
    }

    /// Takes the one message out, consuming the receiving half.
    pub fn receive<T>(self, channel: &mut Channel<T>) -> (message: T)
        requires
            old(channel).wf(),
            old(channel).state() == READY,
        ensures
            final(channel).wf(),
            final(channel).state() == READING,
            final(channel)@ is None,
            (*old(channel))@ == Some(message),
    {
        channel.receive()
    }
}

/// A borrowed string payload for the channel tests: a named wrapper makes
/// the moments a message value is moved, kept and discarded easy to follow
/// in the ownership model.
pub struct MyStr<'a> {
    text: &'a str,
}

impl<'a> View for MyStr<'a> {
    type V = Seq<char>;

    closed spec fn view(&self) -> Seq<char> {
        self.text@
    }
}

impl<'a> MyStr<'a> {
    /// Wraps a borrowed string.
    pub fn new(text: &'a str) -> (m: MyStr<'a>)
        ensures
            m@ == text@,
    {
        MyStr { text }
    }

    /// The borrowed string back out.
    pub fn text(&self) -> (r: &'a str)
        ensures
            r@ == self@,
    {
        self.text
    }
}

} // verus!
