use std::collections::HashMap;
use vstd::prelude::*;

use crate::reactor::kqueue::{
    add_read_event, add_write_event, delete_events, make_event, spec_add_read, spec_add_write,
    spec_delete, spec_event, add_clear, no_flags, EventFlags, Filter, KEvent,
};
use crate::reactor::registration::{token_of, RegistrationState};

pub mod kqueue;
pub mod registration;

verus! {

broadcast use vstd::std_specs::hash::group_hash_axioms;

/// Identifies one registration of interest in the reactor.
#[derive(Debug, Clone, Copy, PartialEq, Eq, Hash, Structural)]
pub struct Token(pub usize);

/// The readiness a registration waits for.
#[derive(Debug, Clone, Copy, PartialEq, Eq, Structural)]
pub enum Interest {
    READ,
    WRITE,
}

/// A pending interest: its token, the descriptor, what it waits for, and
/// the waker to call once it is ready.
pub struct Registration<W> {
    pub token: usize,
    pub fd: i32,
    pub interest: Interest,
    pub waker: W,
}

/// The reactor's bookkeeping: the registry of pending interests by token,
/// the next token to hand out, and the identifier of its user wake event.
pub struct Reactor<W> {
    registry: HashMap<usize, Registration<W>>,
    advance_token: usize,
    wake_ident: usize,
    fresh: Ghost<bool>,
}

impl<W> Registration<W> {
    /// Delivers a registration that fired: the registration state of the
    /// operation it was made for (`state`, registered with this
    /// registration's token) is cleared, so that the next poll that would
    /// block registers anew, and the waker to wake is handed out.
    pub fn fire(self, state: &mut RegistrationState) -> (waker: W)
        requires
            old(state)@ == Some(self.token),
        ensures
            waker == self.waker,
            final(state)@ == None::<usize>,
    {
        state.clear_token();
        self.waker
    }
}

/// The counter after handing out one token: it wraps at `usize::MAX`.
pub open spec fn next_after(t: usize) -> usize {
    if t == usize::MAX {
        0
    } else {
        (t + 1) as usize
    }
}

/// The change registering `interest` in `fd` under `token`.
pub open spec fn spec_interest_change(fd: i32, interest: Interest, token: usize) -> KEvent {
    match interest {
        Interest::READ => spec_add_read(fd, token),
        Interest::WRITE => spec_add_write(fd, token),
    }
}

/// The tokens carried by a sequence of received events.
pub open spec fn tokens_of(events: Seq<KEvent>) -> Seq<usize> {
    events.map_values(|e: KEvent| e.token)
}

/// Dispatching received tokens one by one: a token other than the wake
/// identifier whose registration is still present removes it and hands it
/// out to be woken; every other token changes nothing. Gives the registry
/// after the batch and the registrations to wake, in event order.
pub open spec fn dispatch_spec<W>(
    registry: Map<usize, Registration<W>>,
    tokens: Seq<usize>,
    wake_ident: usize,
) -> (Map<usize, Registration<W>>, Seq<Registration<W>>)
    decreases tokens.len(),
{
    if tokens.len() == 0 {
        (registry, Seq::empty())
    } else {
        let (r, w) = dispatch_spec(registry, tokens.drop_last(), wake_ident);
        let t = tokens.last();
        if t != wake_ident && r.contains_key(t) {
            (r.remove(t), w.push(r[t]))
        } else {
            (r, w)
        }
    }
}

impl<W> Reactor<W> {
    /// Every registration is stored under its own token; while the tokens
    /// are fresh, each is below the counter.
    #[verifier::type_invariant]
    spec fn registry_ok(&self) -> bool {
        &&& forall|k: usize| #[trigger]
            self.registry@.contains_key(k) ==> self.registry@[k].token == k
        &&& self.fresh@ ==> forall|k: usize| #[trigger]
            self.registry@.contains_key(k) ==> k < self.advance_token
    }

    /// The pending registrations, by token.
    pub closed spec fn registry(&self) -> Map<usize, Registration<W>> {
        self.registry@
    }

    /// The token the next registration receives.
    pub closed spec fn next_token(&self) -> usize {
        self.advance_token
    }

    /// The identifier of the reactor's user wake event.
    pub closed spec fn spec_wake_ident(&self) -> usize {
        self.wake_ident
    }

    /// Whether the token counter has neither wrapped nor been bypassed, so
    /// that the tokens in use are all below it.
    pub closed spec fn is_fresh(&self) -> bool {
        self.fresh@
    }

    /// Every registered token was handed out before the counter's current
    /// value, so the next token is not in use.
    pub open spec fn tokens_fresh(&self) -> bool {
        forall|k: usize| #[trigger] self.registry().contains_key(k) ==> k < self.next_token()
    }

    /// Every registration is stored under its own token.
    pub open spec fn keys_match(&self) -> bool {
        forall|k: usize| #[trigger]
            self.registry().contains_key(k) ==> self.registry()[k].token == k
    }

    /// What the invariant gives callers.
    pub open spec fn consistent(&self) -> bool {
        &&& self.keys_match()
        &&& self.is_fresh() ==> self.tokens_fresh()
    }

    /// An empty reactor; its user wake event uses identifier `usize::MAX`.
    pub fn new() -> (r: Self)
        ensures
            r.registry() == Map::<usize, Registration<W>>::empty(),
            r.next_token() == 0,
            r.spec_wake_ident() == usize::MAX,
            r.is_fresh(),
            r.consistent(),
    {
        Reactor {
            registry: HashMap::new(),
            advance_token: 0,
            wake_ident: usize::MAX,
            fresh: Ghost(true),
        }
    }

    /// The identifier of the reactor's user wake event.
    pub fn wake_ident(&self) -> (ident: usize)
        ensures
            ident == self.spec_wake_ident(),
    {
        self.wake_ident
    }

    /// Whether a registration is pending under `token`.
    pub fn contains_token(&self, token: Token) -> (b: bool)
        ensures
            b == self.registry().contains_key(token.0),
    {
        self.registry.contains_key(&token.0)
    }

    /// The number of pending registrations.
    pub fn len(&self) -> (n: usize)
        ensures
            n == self.registry().len(),
    {
        self.registry.len()
    }

    /// The change that installs the reactor's edge-triggered user wake event.
    pub fn wake_registration(&self) -> (event: KEvent)
        ensures
            event == spec_event(self.spec_wake_ident(), Filter::User, add_clear(), self.spec_wake_ident()),
    {
        make_event(
            self.wake_ident,
            Filter::User,
            EventFlags { add: true, delete: false, clear: true },
            self.wake_ident,
        )
    }

    /// The change that fires the reactor's user wake event, so that a
    /// blocked wait returns.
    pub fn trigger_wake(&self) -> (event: KEvent)
        ensures
            event == (KEvent {
                ident: self.spec_wake_ident(),
                filter: Filter::User,
                flags: no_flags(),
                trigger: true,
                token: self.spec_wake_ident(),
            }),
    {
        KEvent {
            ident: self.wake_ident,
            filter: Filter::User,
            flags: EventFlags { add: false, delete: false, clear: false },
            trigger: true,
            token: self.wake_ident,
        }
    }

    /// Hands out the next token and advances the counter, wrapping at
    /// `usize::MAX`.
    pub fn fetch_and_advance_token(&mut self) -> (token: usize)
        ensures
            token == old(self).next_token(),
            final(self).next_token() == next_after(old(self).next_token()),
            final(self).registry() == old(self).registry(),
            final(self).spec_wake_ident() == old(self).spec_wake_ident(),
            final(self).is_fresh() == (old(self).is_fresh() && old(self).next_token() < usize::MAX),
            final(self).consistent(),
    {
        proof {
            use_type_invariant(&*self);
        }
        let token = self.advance_token;
        if token == usize::MAX {
            self.fresh = Ghost(false);
        }
        self.advance_token = self.advance_token.wrapping_add(1);
        proof {
            use_type_invariant(&*self);
        }
        token
    }

    /// First half of a registration: hands out a token and gives the change
    /// to submit to the kernel for `interest` in `fd`. The registry is
    /// untouched until `complete_register`.
    pub fn register_change(&mut self, fd: i32, interest: Interest) -> (change: KEvent)
        ensures
            change == spec_interest_change(fd, interest, old(self).next_token()),
            final(self).next_token() == next_after(old(self).next_token()),
            final(self).registry() == old(self).registry(),
            final(self).spec_wake_ident() == old(self).spec_wake_ident(),
            final(self).is_fresh() == (old(self).is_fresh() && old(self).next_token() < usize::MAX),
            final(self).consistent(),
    {
        let token = self.fetch_and_advance_token();
        match interest {
            Interest::READ => add_read_event(fd, token),
            Interest::WRITE => add_write_event(fd, token),
        }
    }

    /// Second half of a registration, once the kernel accepted the change:
    /// records the registration under `token` and marks `state` as
    /// registered with it. A token that was not handed out before the
    /// counter's value ends freshness.
    pub fn complete_register(
        &mut self,
        token: Token,
        fd: i32,
        interest: Interest,
        waker: W,
        state: &mut RegistrationState,
    ) -> (registered: Token)
        ensures
            registered == token,
            final(self).registry() == old(self).registry().insert(
                token.0,
                Registration { token: token.0, fd, interest, waker },
            ),
            final(state)@ == token_of(token.0),
            final(self).next_token() == old(self).next_token(),
            final(self).spec_wake_ident() == old(self).spec_wake_ident(),
            final(self).is_fresh() == (old(self).is_fresh() && token.0 < old(self).next_token()),
            final(self).consistent(),
    {
        proof {
            use_type_invariant(&*self);
        }
        if token.0 >= self.advance_token {
            self.fresh = Ghost(false);
        }
        let mut registry: HashMap<usize, Registration<W>> = HashMap::new();
        std::mem::swap(&mut registry, &mut self.registry);
        registry.insert(token.0, Registration { token: token.0, fd, interest, waker });
        self.registry = registry;
        state.set_token(token);
        proof {
            use_type_invariant(&*self);
        }
        token
    }

    /// Drops the registration under `token` and gives the changes that stop
    /// watching `fd` (both filters; the kernel's answer to them is ignored).
    pub fn deregister_fd(&mut self, fd: i32, token: Token) -> (changes: Vec<KEvent>)
        ensures
            final(self).registry() == old(self).registry().remove(token.0),
            changes@ == spec_delete(fd),
            final(self).next_token() == old(self).next_token(),
            final(self).spec_wake_ident() == old(self).spec_wake_ident(),
            final(self).is_fresh() == old(self).is_fresh(),
            final(self).consistent(),
    {
        proof {
            use_type_invariant(&*self);
        }
        let mut registry: HashMap<usize, Registration<W>> = HashMap::new();
        std::mem::swap(&mut registry, &mut self.registry);
        let _ = registry.remove(&token.0);
        self.registry = registry;
        proof {
            use_type_invariant(&*self);
        }
        delete_events(fd)
    }

    /// Handles a batch of received events: every event whose token is
    /// registered (and is not the wake identifier) removes its registration,
    /// which is handed back, in event order, to be fired. Registrations are
    /// one-shot: a token fires at most once.
    pub fn dispatch(&mut self, events: &[KEvent]) -> (woken: Vec<Registration<W>>)
        ensures
            (final(self).registry(), woken@) == dispatch_spec(
                old(self).registry(),
                tokens_of(events@),
                old(self).spec_wake_ident(),
            ),
            final(self).next_token() == old(self).next_token(),
            final(self).spec_wake_ident() == old(self).spec_wake_ident(),
            final(self).is_fresh() == old(self).is_fresh(),
            final(self).consistent(),
    {
        proof {
            use_type_invariant(&*self);
        }
        let ghost reg0 = self.registry@;
        let mut registry: HashMap<usize, Registration<W>> = HashMap::new();
        std::mem::swap(&mut registry, &mut self.registry);
        let wake_ident = self.wake_ident;
        let mut woken: Vec<Registration<W>> = Vec::new();
        let mut i: usize = 0;
        while i < events.len()
            invariant
                i <= events@.len(),
                wake_ident == old(self).spec_wake_ident(),
                reg0 == old(self).registry(),
                forall|k: usize| #[trigger]
                    registry@.contains_key(k) ==> reg0.contains_key(k) && registry@[k] == reg0[k],
                (registry@, woken@) == dispatch_spec(
                    reg0,
                    tokens_of(events@.take(i as int)),
                    wake_ident,
                ),
            decreases events@.len() - i,
        {
            let token = events[i].token;
            proof {
                let pre = tokens_of(events@.take(i as int));
                let post = tokens_of(events@.take(i as int + 1));
                assert(post.drop_last() =~= pre);
                assert(post.last() == token);
            }
            if token != wake_ident {
                match registry.remove(&token) {
                    Some(reg) => {
                        woken.push(reg);
                    },
                    None => {},
                }
            }
            i = i + 1;
        }
        proof {
            assert(events@.take(events@.len() as int) =~= events@);
        }
        self.registry = registry;
        proof {
            use_type_invariant(&*self);
        }
        woken
    }
}

/// A dispatched batch removes the registration of each of its tokens other
/// than the wake identifier; registrations under tokens outside the batch
/// stay exactly as they were; and every registration handed out to be woken
/// is the one that was registered under a token of the batch.
pub proof fn lemma_dispatch_fires_batch<W>(
    registry: Map<usize, Registration<W>>,
    tokens: Seq<usize>,
    wake_ident: usize,
)
    ensures
        ({
            let (after, woken) = dispatch_spec(registry, tokens, wake_ident);
            &&& forall|i: int|
                0 <= i < tokens.len() && tokens[i] != wake_ident ==> !after.contains_key(
                    #[trigger] tokens[i],
                )
            &&& forall|k: usize|
                !tokens.contains(k) ==> (#[trigger] after.contains_key(k) == registry.contains_key(k))
                    && (registry.contains_key(k) ==> after[k] == registry[k])
            &&& forall|k: usize| #[trigger] after.contains_key(k) ==> registry.contains_key(k) && after[k] == registry[k]
            &&& woken.len() <= tokens.len()
            &&& forall|j: int|
                #![trigger woken[j]]
                0 <= j < woken.len() ==> exists|i: int|
                    #![trigger tokens[i]]
                    0 <= i < tokens.len() && tokens[i] != wake_ident && registry.contains_key(
                        tokens[i],
                    ) && woken[j] == registry[tokens[i]]
        }),
    decreases tokens.len(),
{
    if tokens.len() > 0 {
        let front = tokens.drop_last();
        lemma_dispatch_fires_batch(registry, front, wake_ident);
        let (r, w) = dispatch_spec(registry, front, wake_ident);
        let (after, woken) = dispatch_spec(registry, tokens, wake_ident);
        let t = tokens.last();
        assert forall|i: int|
            0 <= i < tokens.len() && tokens[i] != wake_ident implies !after.contains_key(
            #[trigger] tokens[i],
        ) by {
            if i < tokens.len() - 1 {
                assert(front[i] == tokens[i]);
            }
        }
        assert forall|k: usize| !tokens.contains(k) implies (#[trigger] after.contains_key(k)
            == registry.contains_key(k)) && (registry.contains_key(k) ==> after[k] == registry[k]) by {
            if front.contains(k) {
                let i = choose|i: int| 0 <= i < front.len() && front[i] == k;
                assert(tokens[i] == k);
            }
            assert(k != t);
        }
        assert forall|j: int| #![trigger woken[j]] 0 <= j < woken.len() implies exists|i: int|
            #![trigger tokens[i]]
            0 <= i < tokens.len() && tokens[i] != wake_ident && registry.contains_key(tokens[i])
                && woken[j] == registry[tokens[i]] by {
            if j < w.len() {
                assert(w[j] == woken[j]);
                let i = choose|i: int|
                    #![trigger front[i]]
                    0 <= i < front.len() && front[i] != wake_ident && registry.contains_key(
                        front[i],
                    ) && w[j] == registry[front[i]];
                assert(tokens[i] == front[i]);
            } else {
                assert(tokens[tokens.len() - 1] == t);
                assert(r.contains_key(t));
                assert(registry.contains_key(t) && r[t] == registry[t]);
            }
        }
    }
}

/// Each registration handed out by a dispatch is one of the batch's fired
/// tokens (never the wake identifier), and that token is gone from the
/// registry: firing it clears the registration state made with that token,
/// so the operation is registered again only by a later poll.
pub proof fn lemma_woken_were_fired<W>(
    registry: Map<usize, Registration<W>>,
    tokens: Seq<usize>,
    wake_ident: usize,
)
    requires
        forall|k: usize| #[trigger] registry.contains_key(k) ==> registry[k].token == k,
    ensures
        ({
            let (after, woken) = dispatch_spec(registry, tokens, wake_ident);
            forall|j: int|
                0 <= j < woken.len() ==> #[trigger] tokens.contains(woken[j].token)
                    && woken[j].token != wake_ident && !after.contains_key(woken[j].token)
        }),
{
    lemma_dispatch_fires_batch(registry, tokens, wake_ident);
    let (after, woken) = dispatch_spec(registry, tokens, wake_ident);
    assert forall|j: int| 0 <= j < woken.len() implies #[trigger] tokens.contains(woken[j].token)
        && woken[j].token != wake_ident && !after.contains_key(woken[j].token) by {
        let w = woken[j];
        let i = choose|i: int|
            #![trigger tokens[i]]
            0 <= i < tokens.len() && tokens[i] != wake_ident && registry.contains_key(tokens[i])
                && w == registry[tokens[i]];
        assert(registry.contains_key(tokens[i]));
        assert(w.token == tokens[i]);
    }
}

/// Completeness of a dispatch: every batch token other than the wake
/// identifier that was registered before the batch has its registration
/// among the ones handed out.
pub proof fn lemma_dispatch_wakes_all_fired<W>(
    registry: Map<usize, Registration<W>>,
    tokens: Seq<usize>,
    wake_ident: usize,
)
    ensures
        ({
            let (after, woken) = dispatch_spec(registry, tokens, wake_ident);
            forall|i: int|
                #![trigger tokens[i]]
                0 <= i < tokens.len() && tokens[i] != wake_ident && registry.contains_key(tokens[i])
                    ==> exists|j: int|
                    #![trigger woken[j]]
                    0 <= j < woken.len() && woken[j] == registry[tokens[i]]
        }),
    decreases tokens.len(),
{
    if tokens.len() > 0 {
        let front = tokens.drop_last();
        let t = tokens.last();
        let n = tokens.len() - 1;
        lemma_dispatch_wakes_all_fired(registry, front, wake_ident);
        let (r, wk) = dispatch_spec(registry, front, wake_ident);
        let (after, woken) = dispatch_spec(registry, tokens, wake_ident);
        assert(tokens[n] == t);
        assert forall|i: int|
            #![trigger tokens[i]]
            0 <= i < tokens.len() && tokens[i] != wake_ident && registry.contains_key(tokens[i])
                implies exists|j: int|
                #![trigger woken[j]]
                0 <= j < woken.len() && woken[j] == registry[tokens[i]] by {
            if i < n {
                assert(front[i] == tokens[i]);
                let j = choose|j: int|
                    #![trigger wk[j]]
                    0 <= j < wk.len() && wk[j] == registry[front[i]];
                assert(woken[j] == wk[j]);
            } else if front.contains(t) {
                let i0 = choose|i0: int| 0 <= i0 < front.len() && front[i0] == t;
                assert(front[i0] == t);
                let j = choose|j: int|
                    #![trigger wk[j]]
                    0 <= j < wk.len() && wk[j] == registry[front[i0]];
                assert(woken[j] == wk[j]);
            } else {
                assert(r.contains_key(t) && r[t] == registry[t]) by {
                    lemma_dispatch_fires_batch(registry, front, wake_ident);
                }
                assert(woken[wk.len() as int] == r[t]);
            }
        }
    }
}

/// A dispatch hands out each registration at most once: the registrations
/// handed out have pairwise different tokens.
pub proof fn lemma_dispatch_wakes_each_once<W>(
    registry: Map<usize, Registration<W>>,
    tokens: Seq<usize>,
    wake_ident: usize,
)
    requires
        forall|k: usize| #[trigger] registry.contains_key(k) ==> registry[k].token == k,
    ensures
        ({
            let (after, woken) = dispatch_spec(registry, tokens, wake_ident);
            forall|j1: int, j2: int|
                #![trigger woken[j1], woken[j2]]
                0 <= j1 < j2 < woken.len() ==> woken[j1].token != woken[j2].token
        }),
    decreases tokens.len(),
{
    if tokens.len() > 0 {
        let front = tokens.drop_last();
        let t = tokens.last();
        lemma_dispatch_wakes_each_once(registry, front, wake_ident);
        lemma_woken_were_fired(registry, front, wake_ident);
        lemma_dispatch_fires_batch(registry, front, wake_ident);
        let (r, wk) = dispatch_spec(registry, front, wake_ident);
        let (after, woken) = dispatch_spec(registry, tokens, wake_ident);
        assert forall|j1: int, j2: int|
            #![trigger woken[j1], woken[j2]]
            0 <= j1 < j2 < woken.len() implies woken[j1].token != woken[j2].token by {
            if j2 < wk.len() {
                assert(woken[j1] == wk[j1] && woken[j2] == wk[j2]);
            } else {
                assert(r.contains_key(t));
                assert(woken[j2] == r[t]);
                assert(r[t] == registry[t]);
                assert(woken[j1] == wk[j1]);
                assert(!r.contains_key(wk[j1].token));
            }
        }
    }
}

/// A dispatch hands registrations out in event order: of two registrations
/// handed out, the earlier one's token occurs in the batch before every
/// occurrence of the later one's token.
pub proof fn lemma_dispatch_wakes_in_order<W>(
    registry: Map<usize, Registration<W>>,
    tokens: Seq<usize>,
    wake_ident: usize,
)
    requires
        forall|k: usize| #[trigger] registry.contains_key(k) ==> registry[k].token == k,
    ensures
        ({
            let (after, woken) = dispatch_spec(registry, tokens, wake_ident);
            forall|j1: int, j2: int, i2: int|
                #![trigger woken[j1], woken[j2], tokens[i2]]
                0 <= j1 < j2 < woken.len() && 0 <= i2 < tokens.len() && tokens[i2]
                    == woken[j2].token ==> exists|i1: int|
                    #![trigger tokens[i1]]
                    0 <= i1 < i2 && tokens[i1] == woken[j1].token
        }),
    decreases tokens.len(),
{
    if tokens.len() > 0 {
        let front = tokens.drop_last();
        let t = tokens.last();
        let n = tokens.len() - 1;
        lemma_dispatch_wakes_in_order(registry, front, wake_ident);
        lemma_woken_were_fired(registry, front, wake_ident);
        lemma_dispatch_fires_batch(registry, front, wake_ident);
        let (r, wk) = dispatch_spec(registry, front, wake_ident);
        let (after, woken) = dispatch_spec(registry, tokens, wake_ident);
        assert(tokens[n] == t);
        assert forall|j1: int, j2: int, i2: int|
            #![trigger woken[j1], woken[j2], tokens[i2]]
            0 <= j1 < j2 < woken.len() && 0 <= i2 < tokens.len() && tokens[i2] == woken[j2].token
                implies exists|i1: int|
                #![trigger tokens[i1]]
                0 <= i1 < i2 && tokens[i1] == woken[j1].token by {
            assert(woken[j1] == wk[j1]);
            if i2 < n {
                assert(front[i2] == tokens[i2]);
                if j2 < wk.len() {
                    assert(woken[j2] == wk[j2]);
                    let i1 = choose|i1: int|
                        #![trigger front[i1]]
                        0 <= i1 < i2 && front[i1] == wk[j1].token;
                    assert(tokens[i1] == front[i1]);
                } else {
                    assert(r.contains_key(t) && t != wake_ident);
                    assert(woken[j2] == r[t]);
                    assert(r[t] == registry[t]);
                    assert(front[i2] == t);
                    assert(!r.contains_key(front[i2]));
                }
            } else {
                assert(front.contains(wk[j1].token));
                let i1 = choose|i1: int| 0 <= i1 < front.len() && front[i1] == wk[j1].token;
                assert(tokens[i1] == front[i1]);
            }
        }
    }
}

/// Read after write: a registration made under a token other than the wake
/// identifier is the one handed out when that token fires, and firing
/// leaves the rest of the registry as it was before the registration.
pub proof fn lemma_register_then_fire<W>(
    registry: Map<usize, Registration<W>>,
    token: usize,
    registration: Registration<W>,
    wake_ident: usize,
)
    requires
        token != wake_ident,
    ensures
        dispatch_spec(registry.insert(token, registration), seq![token], wake_ident) == (
            registry.remove(token),
            seq![registration],
        ),
{
    let reg = registry.insert(token, registration);
    let s = seq![token];
    assert(s.drop_last() =~= Seq::<usize>::empty());
    assert(dispatch_spec(reg, Seq::<usize>::empty(), wake_ident) == (
        reg,
        Seq::<Registration<W>>::empty(),
    ));
    assert(reg.remove(token) =~= registry.remove(token));
    assert(Seq::<Registration<W>>::empty().push(registration) =~= seq![registration]);
}

/// Registrations are one-shot: a token that fires twice in a row is woken
/// at most once, and the second firing changes nothing.
pub proof fn lemma_fire_twice_wakes_once<W>(
    registry: Map<usize, Registration<W>>,
    token: usize,
    wake_ident: usize,
)
    ensures
        dispatch_spec(registry, seq![token, token], wake_ident).1.len() <= 1,
        dispatch_spec(registry, seq![token, token], wake_ident).0 == dispatch_spec(
            registry,
            seq![token],
            wake_ident,
        ).0,
{
    let two = seq![token, token];
    let one = seq![token];
    assert(two.drop_last() =~= one);
    assert(one.drop_last() =~= Seq::<usize>::empty());
    assert(dispatch_spec(registry, Seq::<usize>::empty(), wake_ident) == (
        registry,
        Seq::<Registration<W>>::empty(),
    ));
    let (r1, w1) = dispatch_spec(registry, one, wake_ident);
    assert(w1.len() <= 1);
    assert(!(token != wake_ident && r1.contains_key(token)));
}

/// The reactor's own wake events never wake a registration.
pub proof fn lemma_wake_ident_ignored<W>(
    registry: Map<usize, Registration<W>>,
    tokens: Seq<usize>,
    wake_ident: usize,
)
    requires
        forall|i: int| 0 <= i < tokens.len() ==> tokens[i] == wake_ident,
    ensures
        dispatch_spec(registry, tokens, wake_ident) == (registry, Seq::<Registration<W>>::empty()),
    decreases tokens.len(),
{
    if tokens.len() > 0 {
        lemma_wake_ident_ignored(registry, tokens.drop_last(), wake_ident);
    }
}

/// Registrations do not overwrite each other: while tokens are fresh, the
/// token handed out next is not in use, so registering it (say, write
/// interest beside a pending read interest on the same descriptor) keeps
/// every other registration.
pub proof fn lemma_next_token_unused<W>(reactor: Reactor<W>, registration: Registration<W>)
    requires
        reactor.tokens_fresh(),
    ensures
        !reactor.registry().contains_key(reactor.next_token()),
        forall|k: usize|
            #[trigger] reactor.registry().contains_key(k) ==> reactor.registry().insert(
                reactor.next_token(),
                registration,
            ).contains_key(k) && reactor.registry().insert(reactor.next_token(), registration)[k]
                == reactor.registry()[k],
{
}

/// Two tokens handed out one after the other are different: the counter
/// counts up by one, and wraps to zero only after `usize::MAX`.
pub proof fn lemma_successive_tokens_distinct(next: usize)
    ensures
        next_after(next) != next,
        next < usize::MAX ==> next_after(next) == next + 1,
        next == usize::MAX ==> next_after(next) == 0,
{
}

/// The change a registration submits watches the registered descriptor,
/// with the filter of its interest, edge-triggered (added with `EV_CLEAR`),
/// and carries the registration's token.
pub proof fn lemma_interest_change(fd: i32, interest: Interest, token: usize)
    ensures
        spec_interest_change(fd, interest, token).ident == fd as usize,
        spec_interest_change(fd, interest, token).token == token,
        spec_interest_change(fd, interest, token).flags == add_clear(),
        !spec_interest_change(fd, interest, token).trigger,
        interest == Interest::READ ==> spec_interest_change(fd, interest, token).filter
            == Filter::Read,
        interest == Interest::WRITE ==> spec_interest_change(fd, interest, token).filter
            == Filter::Write,
{
}

} // verus!
