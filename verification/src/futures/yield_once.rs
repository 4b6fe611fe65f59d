use vstd::prelude::*;

use crate::futures::Poll;

verus! {

/// A future that is pending once, asking to be woken at once, and ready on
/// the next poll.
pub struct YieldOnce {
    yielded: bool,
}

impl YieldOnce {
    /// Whether the future has already yielded.
    pub closed spec fn has_yielded(&self) -> bool {
        self.yielded
    }

    /// A future that has not yielded yet.
    pub fn new() -> (f: Self)
        ensures
            !f.has_yielded(),
    {
        YieldOnce { yielded: false }
    }

    /// The same as `new`.
    pub fn default() -> (f: Self)
        ensures
            !f.has_yielded(),
    {
        Self::new()
    }

    /// The first poll yields: it returns `Pending`, and the caller wakes the
    /// task at once. Every later poll returns `Ready`.
    pub fn poll(&mut self) -> (p: Poll<()>)
        ensures
            p == yield_poll(old(self).has_yielded()),
            final(self).has_yielded(),
    {
        if !self.yielded {
            self.yielded = true;
            return Poll::Pending;
        }
        Poll::Ready(())
    }
}

/// The poll of a yield-once future that has or has not yielded yet.
pub open spec fn yield_poll(yielded: bool) -> Poll<()> {
    if yielded {
        Poll::Ready(())
    } else {
        Poll::Pending
    }
}

/// A new `YieldOnce` is pending on its first poll and ready on every later
/// poll: a poll leaves it yielded, and a yielded one is ready.
pub proof fn lemma_yield_once_pends_once()
    ensures
        yield_poll(false) == Poll::<()>::Pending,
        yield_poll(true) == Poll::Ready(()),
{
}

} // verus!
