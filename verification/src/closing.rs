//! Shutdown: the one signal that ends the process's loops.

use vstd::prelude::*;

verus! {

/// The state of the shutdown signal: whether it was given, and the sender
/// whose loss tells the loops. The sender is there until the signal is given
/// and gone from then on.
#[derive(Debug)]
pub struct Closer<S> {
    closed: bool,
    sender: Option<S>,
}

/// A guard for a thread that must not end before the process shuts down:
/// when it is let go, the shutdown is signalled if it was not yet.
#[derive(Debug, Default)]
pub struct CloseOnDrop {}

impl<S> Closer<S> {
    /// Whether the shutdown was signalled.
    pub closed spec fn is_closed(self) -> bool {
        self.closed
    }

    /// Whether the sender is still held.
    pub closed spec fn has_sender(self) -> bool {
        self.sender is Some
    }

    /// The signal's invariant: the sender is held exactly until the signal
    /// is given.
    pub open spec fn wf(self) -> bool {
        self.is_closed() == !self.has_sender()
    }

    pub fn new(sender: S) -> (c: Closer<S>)
        ensures
            c.wf(),
            !c.is_closed(),
    {
        Closer { closed: false, sender: Some(sender) }
    }

    pub fn closed(&self) -> (b: bool)
        ensures
            b == self.is_closed(),
    {
        self.closed
    }
}

/// Signals the shutdown. The result says whether this call gave the signal:
/// it is `false` if the signal was given before. The sender is dropped with
/// the first signal.
pub fn close<S>(closer: &mut Closer<S>) -> (first: bool)
    ensures
        first == !old(closer).is_closed(),
        final(closer).is_closed(),
        !final(closer).has_sender(),
        final(closer).wf(),
{
    if !closer.closed {
        closer.closed = true;
        closer.sender = None;
        true
    } else {
        closer.sender = None;
        false
    }
}

impl CloseOnDrop {
    /// Lets the guard go. The result says whether that gave the signal,
    /// which means that the guarded thread ended before its time.
    pub fn release<S>(self, closer: &mut Closer<S>) -> (untimely: bool)
        ensures
            untimely == !old(closer).is_closed(),
            final(closer).is_closed(),
            final(closer).wf(),
    {
        close(closer)
    }
}

} // verus!
