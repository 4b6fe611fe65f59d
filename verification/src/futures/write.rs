use vstd::prelude::*;

use crate::futures::Poll;

verus! {

/// What a write future does on a poll.
#[derive(Debug, Clone, Copy, PartialEq, Eq, Structural)]
pub enum WriteAction {
    /// Attempt to write the buffer from this offset on.
    Attempt(usize),
    /// Nothing is left to write: ready with this many bytes written.
    Finish(usize),
}

/// Progress of writing a buffer of `len` bytes: how many are written.
pub struct WriteProgress {
    written: usize,
    len: usize,
}

impl WriteProgress {
    /// The bytes written so far.
    pub closed spec fn spec_written(&self) -> nat {
        self.written as nat
    }

    /// The length of the buffer.
    pub closed spec fn spec_len(&self) -> nat {
        self.len as nat
    }

    /// Nothing written yet of a buffer of `len` bytes.
    pub fn new(len: usize) -> (w: Self)
        ensures
            w.spec_written() == 0,
            w.spec_len() == len,
    {
        WriteProgress { written: 0, len }
    }

    /// The bytes written so far.
    pub fn written(&self) -> (n: usize)
        ensures
            n == self.spec_written(),
    {
        self.written
    }

    /// The length of the buffer.
    pub fn len(&self) -> (n: usize)
        ensures
            n == self.spec_len(),
    {
        self.len
    }

    /// While bytes are left, a poll attempts to write from the first byte
    /// not yet written; otherwise it is ready with the count written.
    pub fn next_action(&self) -> (a: WriteAction)
        ensures
            self.spec_written() < self.spec_len() ==> a == WriteAction::Attempt(self.spec_written() as usize),
            self.spec_written() >= self.spec_len() ==> a == WriteAction::Finish(self.spec_written() as usize),
    {
        if self.written < self.len {
            WriteAction::Attempt(self.written)
        } else {
            WriteAction::Finish(self.written)
        }
    }

    /// Takes the outcome of one write attempt: bytes written are added and
    /// the poll is ready with the total so far, even when bytes are left;
    /// an error is handed back; a pending attempt leaves the poll pending.
    /// A write reports at most the bytes it was offered.
    pub fn on_write<E>(&mut self, outcome: Poll<Result<usize, E>>) -> (p: Poll<Result<usize, E>>)
        requires
            old(self).spec_written() < old(self).spec_len(),
            outcome matches Poll::Ready(Ok(n)) ==> n <= old(self).spec_len() - old(self).spec_written(),
        ensures
            final(self).spec_len() == old(self).spec_len(),
            final(self).spec_written() <= final(self).spec_len(),
            match outcome {
                Poll::Ready(Ok(n)) => final(self).spec_written() == old(self).spec_written() + n
                    && p == Poll::<Result<usize, E>>::Ready(Ok(final(self).spec_written() as usize)),
                Poll::Ready(Err(e)) => final(self).spec_written() == old(self).spec_written()
                    && p == Poll::<Result<usize, E>>::Ready(Err(e)),
                Poll::Pending => final(self).spec_written() == old(self).spec_written() && p
                    == Poll::<Result<usize, E>>::Pending,
            },
    {
        match outcome {
            Poll::Ready(Ok(n)) => {
                self.written = self.written + n;
                Poll::Ready(Ok(self.written))
            },
            Poll::Ready(Err(e)) => Poll::Ready(Err(e)),
            Poll::Pending => Poll::Pending,
        }
    }
}

} // verus!
