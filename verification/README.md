# thrust-rs

A small single-threaded async runtime with a kqueue reactor, whose
scheduling and registration logic is verified with Verus.

- `src/` is the verified core:
  - `reactor/`: tokens, the registry of one-shot readiness registrations,
    its dispatch of received events and the firing of a registration, which
    clears the operation's registration state (`mod.rs`), the kqueue change and
    wait bookkeeping (`kqueue.rs`), and the per-operation registration
    state (`registration.rs`);
  - `executor/`: the ready queue and the spawned tasks by id, each either
    unfinished or finished once, that decide when the executor loop polls,
    waits or stops;
  - `runtime/`: the `block_on` loop as a state machine, and the runtime
    context slots;
  - `futures/`: the self-waking futures (`YieldOnce`, `Countdown`,
    `ImmediateReady`, `WakeLatencyFuture`), write progress, and the
    non-blocking connect state machine;
  - `net/`: the decision a socket poll takes after a non-blocking call.
- `app/` performs what the core decides: `Future` impls, the `RawWaker`,
  the executor and `block_on` loops, the kqueue system calls, the TCP
  wrappers and the thread-local runtime context. Its kqueue parts build on
  macOS and the BSDs.
- `tests/` exercise the core.
