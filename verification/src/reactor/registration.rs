use vstd::prelude::*;

use crate::reactor::Token;

verus! {

/// The stored value that marks "no active registration".
pub const INVALID_TOKEN: usize = usize::MAX;

/// One-shot registration state of a pending I/O operation: either no
/// registration, or the token of the registration the reactor holds for it.
pub struct RegistrationState {
    token: usize,
}

/// The registration a raw stored value stands for.
pub open spec fn token_of(raw: usize) -> Option<usize> {
    if raw == INVALID_TOKEN {
        None
    } else {
        Some(raw)
    }
}

impl View for RegistrationState {
    type V = Option<usize>;

    closed spec fn view(&self) -> Option<usize> {
        token_of(self.token)
    }
}

impl RegistrationState {
    /// A state with no registration.
    pub fn new() -> (state: Self)
        ensures
            state@ == None::<usize>,
    {
        RegistrationState { token: INVALID_TOKEN }
    }

    /// The token of the active registration, if there is one.
    pub fn get_token(&self) -> (token: Option<Token>)
        ensures
            token == (match self@ {
                Some(t) => Some(Token(t)),
                None => None,
            }),
    {
        let value = self.token;
        if value == INVALID_TOKEN {
            None
        } else {
            Some(Token(value))
        }
    }

    /// Records `token` as the active registration. The reserved value
    /// `INVALID_TOKEN` reads back as no registration.
    pub fn set_token(&mut self, token: Token)
        ensures
            final(self)@ == token_of(token.0),
    {
        self.token = token.0;
    }

    /// Forgets the active registration.
    pub fn clear_token(&mut self)
        ensures
            final(self)@ == None::<usize>,
    {
        self.token = INVALID_TOKEN;
    }

    /// Whether a registration is active.
    pub fn is_registered(&self) -> (registered: bool)
        ensures
            registered == self@.is_some(),
    {
        self.token != INVALID_TOKEN
    }
}

/// Read after write: setting a token other than the reserved
/// `INVALID_TOKEN` makes the state registered with exactly that token;
/// clearing makes it unregistered; setting the reserved value reads back
/// as no registration.
pub proof fn lemma_set_then_get(t: usize)
    ensures
        t != INVALID_TOKEN ==> token_of(t) == Some(t),
        token_of(INVALID_TOKEN) == None::<usize>,
{
}

} // verus!
