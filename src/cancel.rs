//! The process-wide shutdown signal: once fired it stays fired, for every
//! subscriber, past or future.
use vstd::prelude::*;

verus! {

/// The state of the bus after `signal()` on a bus in state `fired`.
pub open spec fn after_signal(fired: bool) -> bool {
    true
}

/// What a subscriber sees when it looks at a bus in state `fired`.
pub open spec fn observed(fired: bool) -> bool {
    fired
}

/// A one-shot "stop everything" flag; any holder may fire it.
pub struct CancellationBus {
    fired: bool,
}

impl View for CancellationBus {
    type V = bool;

    closed spec fn view(&self) -> bool {
        self.fired
    }
}

/// A subscription to the bus.
pub struct QuitReceiver {
    seen: bool,
}

impl View for QuitReceiver {
    type V = bool;

    closed spec fn view(&self) -> bool {
        self.seen
    }
}

impl CancellationBus {
    /// A bus that has not fired.
    pub fn new() -> (r: CancellationBus)
        ensures
            r@ == false,
    {
        CancellationBus { fired: false }
    }

    /// Requests a shutdown of everything; firing again changes nothing.
    pub fn signal(&mut self)
        ensures
            final(self)@ == after_signal(old(self)@),
    {
        self.fired = true;
    }

    /// Whether a shutdown was requested.
    pub fn is_signaled(&self) -> (r: bool)
        ensures
            r == observed(self@),
    {
        self.fired
    }

    /// A new subscription; one made after the bus fired has seen it already.
    pub fn subscribe(&self) -> (r: QuitReceiver)
        ensures
            r@ == observed(self@),
    {
        QuitReceiver { seen: self.fired }
    }
}

impl QuitReceiver {
    /// A look at the bus that does not block: whether it has fired.
    pub fn try_recv(&mut self, bus: &CancellationBus) -> (r: bool)
        ensures
            r == observed(bus@),
            final(self)@ == (old(self)@ || observed(bus@)),
    {
        self.seen = self.seen || bus.fired;
        bus.fired
    }

    /// Whether this subscriber has seen the bus fire.
    pub fn has_seen(&self) -> (r: bool)
        ensures
            r == self@,
    {
        self.seen
    }
}

/// Turns a failure into a shutdown request for everything.
pub trait QuitOnError: Sized {
    /// Whether the value is a failure.
    spec fn is_failure(&self) -> bool;

    /// Fires the bus when `self` is a failure, and hands `self` back unchanged.
    fn quit_on_err(self, quit: &mut CancellationBus) -> (r: Self)
        ensures
            r == self,
            final(quit)@ == (old(quit)@ || self.is_failure()),
    ;
}

impl<S, E> QuitOnError for Result<S, E> {
    open spec fn is_failure(&self) -> bool {
        self is Err
    }

    fn quit_on_err(self, quit: &mut CancellationBus) -> (r: Self) {
        if self.is_err() {
            quit.signal();
        }
        self
    }
}

/// Firing the bus twice leaves it as firing it once does, and a subscriber
/// that comes after the bus fired sees it fired at once.
pub proof fn lemma_signal_idempotent(fired: bool)
    ensures
        after_signal(after_signal(fired)) == after_signal(fired),
        observed(after_signal(fired)),
        observed(after_signal(after_signal(fired))),
{
}

} // verus!
