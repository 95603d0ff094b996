use vstd::prelude::*;

verus! {

/// Counts the stream and datagram handlers of one connection that are
/// still at work, so that the connection can wait for them before it
/// closes.
#[derive(Clone, Copy, Debug, PartialEq, Eq, Structural)]
pub struct StreamReg {
    live: usize,
}

impl View for StreamReg {
    type V = nat;

    /// The number of handlers at work.
    closed spec fn view(&self) -> nat {
        self.live as nat
    }
}

impl StreamReg {
    /// A registry with no handler at work.
    pub fn new() -> (reg: Self)
        ensures
            reg@ == 0,
    {
        Self { live: 0 }
    }

    /// Counts one more handler. Nothing is counted, and `false` comes
    /// back, only where the count cannot grow any further.
    pub fn register(&mut self) -> (counted: bool)
        ensures
            counted == (old(self)@ < usize::MAX),
            final(self)@ == if counted {
                old(self)@ + 1
            } else {
                old(self)@
            },
    {
        if self.live < usize::MAX {
            self.live = self.live + 1;
            true
        } else {
            false
        }
    }

    /// Counts one handler less. With no handler at work nothing changes,
    /// and `false` comes back.
    pub fn release(&mut self) -> (released: bool)
        ensures
            released == (old(self)@ > 0),
            final(self)@ == if released {
                (old(self)@ - 1) as nat
            } else {
                old(self)@
            },
    {
        if self.live > 0 {
            self.live = self.live - 1;
            true
        } else {
            false
        }
    }

    /// The number of handlers at work.
    pub fn count(&self) -> (n: usize)
        ensures
            n == self@,
    {
        self.live
    }

    /// Whether no handler is at work.
    pub fn is_drained(&self) -> (drained: bool)
        ensures
            drained == (self@ == 0),
    {
        self.live == 0
    }
}

} // verus!
