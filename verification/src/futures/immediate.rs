use vstd::prelude::*;

use crate::futures::Poll;

verus! {

/// A future that is ready with its value on the first poll. It must not be
/// polled again.
pub struct ImmediateReady<T> {
    value: Option<T>,
}

impl<T> ImmediateReady<T> {
    /// The value still held, if the future has not been polled.
    pub closed spec fn held(&self) -> Option<T> {
        self.value
    }

    /// A future holding `val`.
    pub fn new(val: T) -> (f: Self)
        ensures
            f.held() == Some(val),
    {
        ImmediateReady { value: Some(val) }
    }

    /// Whether the value is still held, that is, the future was not polled.
    pub fn has_value(&self) -> (b: bool)
        ensures
            b == self.held().is_some(),
    {
        self.value.is_some()
    }

    /// Hands the value out.
    pub fn poll(&mut self) -> (p: Poll<T>)
        requires
            old(self).held().is_some(),
        ensures
            p == Poll::Ready(old(self).held().unwrap()),
            final(self).held() == None::<T>,
    {
        let v = self.value.take();
        Poll::Ready(v.unwrap())
    }
}

} // verus!
