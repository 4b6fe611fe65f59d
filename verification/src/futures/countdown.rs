use vstd::prelude::*;

use crate::futures::Poll;

verus! {

/// A future that is pending, asking to be woken at once, for as many polls
/// as its starting value, and then ready. It must not be polled again after
/// it is ready.
pub struct Countdown {
    value: Option<u32>,
}

impl Countdown {
    /// The remaining count, or `None` once the future is ready.
    pub closed spec fn remaining(&self) -> Option<u32> {
        self.value
    }

    /// A countdown from `val`.
    pub fn new(val: u32) -> (c: Self)
        ensures
            c.remaining() == Some(val),
    {
        Countdown { value: Some(val) }
    }

    /// The remaining count, or `None` once the future is ready.
    pub fn value(&self) -> (v: Option<u32>)
        ensures
            v == self.remaining(),
    {
        self.value
    }

    /// A nonzero count is decremented and the poll is `Pending` (the caller
    /// wakes the task at once); a zero count finishes the future: `Ready`.
    pub fn poll(&mut self) -> (p: Poll<()>)
        requires
            old(self).remaining().is_some(),
        ensures
            old(self).remaining().unwrap() != 0 ==> p == Poll::<()>::Pending
                && final(self).remaining() == Some((old(self).remaining().unwrap() - 1) as u32),
            old(self).remaining().unwrap() == 0 ==> p == Poll::Ready(())
                && final(self).remaining() == None::<u32>,
    {
        let v = self.value.unwrap();
        if v != 0 {
            self.value = Some(v - 1);
            return Poll::Pending;
        }
        self.value = None;
        Poll::Ready(())
    }
}

/// The state of a countdown from `n` after `k` polls: the count left, or
/// `None` once it has been ready.
pub open spec fn countdown_after(n: u32, k: nat) -> Option<u32> {
    if k <= n {
        Some((n - k) as u32)
    } else {
        None
    }
}

/// A countdown from `n` is pending on exactly its first `n` polls and ready
/// on poll `n + 1`: each poll from the state after `k` polls moves to the
/// state after `k + 1` polls.
pub proof fn lemma_countdown_steps(n: u32, k: nat)
    requires
        k <= n,
    ensures
        countdown_after(n, 0) == Some(n),
        countdown_after(n, k).is_some(),
        countdown_after(n, k).unwrap() != 0 <==> k < n,
        k < n ==> countdown_after(n, k + 1) == Some((countdown_after(n, k).unwrap() - 1) as u32),
        k == n ==> countdown_after(n, k + 1) == None::<u32>,
{
}

} // verus!
