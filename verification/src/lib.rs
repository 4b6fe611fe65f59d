//! A small single-threaded async runtime: the scheduling, registration and
//! readiness-dispatch rules of the executor and the kqueue reactor, with
//! their contracts.
pub mod executor;
pub mod futures;
pub mod net;
pub mod reactor;
pub mod runtime;
