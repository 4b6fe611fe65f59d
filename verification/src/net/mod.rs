use vstd::prelude::*;

use crate::futures::Poll;
use crate::reactor::registration::{token_of, RegistrationState, INVALID_TOKEN};
use crate::reactor::Token;

verus! {

/// The result of a non-blocking socket call.
pub enum IoAttempt<T, E> {
    /// It completed with this value.
    Done(T),
    /// It would block.
    WouldBlock,
    /// It failed with this error.
    Failed(E),
}

/// What a socket poll does after its non-blocking call.
#[derive(Debug, PartialEq, Eq)]
pub enum IoStep<T, E> {
    /// Finish the poll with this result.
    Ready(Result<T, E>),
    /// Register readiness interest with the reactor, then be pending.
    Register,
    /// A registration is already active: be pending.
    Wait,
}

/// The step `poll_io` takes.
pub open spec fn spec_poll_io<T, E>(attempt: IoAttempt<T, E>, registered: bool) -> IoStep<T, E> {
    match attempt {
        IoAttempt::Done(v) => IoStep::Ready(Ok(v)),
        IoAttempt::Failed(e) => IoStep::Ready(Err(e)),
        IoAttempt::WouldBlock => if registered {
            IoStep::Wait
        } else {
            IoStep::Register
        },
    }
}

/// The step of a read, write or accept poll: a completed call or an error
/// finishes the poll; a call that would block waits for readiness,
/// registering interest only when no registration is active, so that a
/// pending operation is registered once.
pub fn poll_io<T, E>(attempt: IoAttempt<T, E>, registered: bool) -> (step: IoStep<T, E>)
    ensures
        step == spec_poll_io(attempt, registered),
{
    match attempt {
        IoAttempt::Done(v) => IoStep::Ready(Ok(v)),
        IoAttempt::Failed(e) => IoStep::Ready(Err(e)),
        IoAttempt::WouldBlock => {
            if registered {
                IoStep::Wait
            } else {
                IoStep::Register
            }
        },
    }
}

/// The poll after a registration attempt: a failed registration finishes
/// the poll with its error; a successful one leaves it pending.
pub fn after_register<T, E>(outcome: Result<Token, E>) -> (p: Poll<Result<T, E>>)
    ensures
        match outcome {
            Ok(_) => p == Poll::<Result<T, E>>::Pending,
            Err(e) => p == Poll::<Result<T, E>>::Ready(Err(e)),
        },
{
    match outcome {
        Ok(_) => Poll::Pending,
        Err(e) => Poll::Ready(Err(e)),
    }
}

/// The registrations a stream releases when it is dropped: its active read
/// registration, then its active write registration.
pub fn tokens_to_release(read: &RegistrationState, write: &RegistrationState) -> (tokens: Vec<
    Token,
>)
    ensures
        tokens@ == (match read@ {
            Some(r) => seq![Token(r)],
            None => Seq::<Token>::empty(),
        }) + (match write@ {
            Some(w) => seq![Token(w)],
            None => Seq::<Token>::empty(),
        }),
{
    let mut tokens: Vec<Token> = Vec::new();
    if let Some(t) = read.get_token() {
        tokens.push(t);
    }
    if let Some(t) = write.get_token() {
        tokens.push(t);
    }
    proof {
        let a = match read@ {
            Some(r) => seq![Token(r)],
            None => Seq::<Token>::empty(),
        };
        let b = match write@ {
            Some(w) => seq![Token(w)],
            None => Seq::<Token>::empty(),
        };
        assert(tokens@ =~= a + b);
    }
    tokens
}

/// A call that completed or failed finishes the poll with its value or its
/// error, whatever the registration state; only a call that would block
/// depends on it, and it never finishes the poll. So an error is never
/// swallowed and a result never waits for readiness.
pub proof fn lemma_poll_io_outcomes<T, E>(attempt: IoAttempt<T, E>, registered: bool)
    ensures
        attempt matches IoAttempt::Failed(e) ==> spec_poll_io(attempt, registered)
            == IoStep::<T, E>::Ready(Err(e)),
        attempt matches IoAttempt::Done(v) ==> spec_poll_io(attempt, registered)
            == IoStep::<T, E>::Ready(Ok(v)),
        !(attempt is WouldBlock) ==> spec_poll_io(attempt, registered) == spec_poll_io(
            attempt,
            !registered,
        ),
        attempt is WouldBlock ==> !(spec_poll_io(attempt, registered) is Ready),
        spec_poll_io(attempt, registered) is Register ==> attempt is WouldBlock && !registered,
{
}

/// No duplicate registrations: once a registration state holds a token
/// (anything but the reserved value), a poll that would block again waits
/// without registering; once the reactor consumed the registration and the
/// state is cleared, the next poll that would block registers anew.
pub proof fn lemma_registers_once<T, E>(token: usize)
    requires
        token != INVALID_TOKEN,
    ensures
        spec_poll_io::<T, E>(IoAttempt::WouldBlock, token_of(token).is_some()) == IoStep::<T, E>::Wait,
        spec_poll_io::<T, E>(IoAttempt::WouldBlock, token_of(INVALID_TOKEN).is_some())
            == IoStep::<T, E>::Register,
{
}

} // verus!
