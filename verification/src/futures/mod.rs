use vstd::prelude::*;

pub mod connect;
pub mod countdown;
pub mod immediate;
pub mod wake_latency;
pub mod write;
pub mod yield_once;

verus! {

/// The outcome of one poll.
#[derive(Debug, PartialEq, Eq)]
pub enum Poll<T> {
    Ready(T),
    Pending,
}

} // verus!
