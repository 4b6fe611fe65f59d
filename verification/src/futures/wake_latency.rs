use vstd::prelude::*;

use crate::futures::Poll;

verus! {

/// A future that yields once, asking to be woken at once, and is then
/// ready; it carries the shared slot where the caller records the moment of
/// the wake-up request, so that the second poll can measure the latency.
pub struct WakeLatencyFuture<C> {
    wake_time: C,
    yielded: bool,
}

impl<C> WakeLatencyFuture<C> {
    /// The slot recording the wake-up time.
    pub closed spec fn spec_wake_time(&self) -> C {
        self.wake_time
    }

    /// Whether the future has already yielded.
    pub closed spec fn has_yielded(&self) -> bool {
        self.yielded
    }

    /// A future that has not yielded, recording into `wake_time`.
    pub fn new(wake_time: C) -> (f: Self)
        ensures
            f.spec_wake_time() == wake_time,
            !f.has_yielded(),
    {
        WakeLatencyFuture { wake_time, yielded: false }
    }

    /// The slot recording the wake-up time.
    pub fn wake_time(&self) -> (c: &C)
        ensures
            *c == self.spec_wake_time(),
    {
        &self.wake_time
    }

    /// The first poll yields: `Pending` (the caller records the time and
    /// wakes the task). Every later poll is `Ready` (the caller measures the
    /// time elapsed since the recorded moment).
    pub fn poll(&mut self) -> (p: Poll<()>)
        ensures
            p == (if old(self).has_yielded() {
                Poll::Ready(())
            } else {
                Poll::<()>::Pending
            }),
            final(self).has_yielded(),
            final(self).spec_wake_time() == old(self).spec_wake_time(),
    {
        if !self.yielded {
            self.yielded = true;
            return Poll::Pending;
        }
        Poll::Ready(())
    }
}

} // verus!
