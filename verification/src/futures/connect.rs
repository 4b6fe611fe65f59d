use vstd::prelude::*;

use crate::futures::Poll;

verus! {

/// A socket address to connect to.
#[derive(Debug, Clone, Copy, PartialEq, Eq)]
pub enum SocketAddress {
    V4 { ip: [u8; 4], port: u16 },
    V6,
}

/// The address fields of an IPv4 `sockaddr_in`, as bytes in network order.
#[derive(Debug, Clone, Copy, PartialEq, Eq)]
pub struct SockAddrV4 {
    pub port: [u8; 2],
    pub addr: [u8; 4],
}

/// The `sockaddr_in` fields for connecting to `addr`: the port big-endian
/// and the octets in order. IPv6 is not supported: `None`.
pub fn ipv4_sockaddr(addr: &SocketAddress) -> (r: Option<SockAddrV4>)
    ensures
        match *addr {
            SocketAddress::V4 { ip, port } => r matches Some(s) && s.port@ == seq![
                (port / 256) as u8,
                (port % 256) as u8,
            ] && s.addr@ == ip@ && s.port[0] * 256 + s.port[1] == port,
            SocketAddress::V6 => r is None,
        },
{
    match addr {
        SocketAddress::V4 { ip, port } => {
            let hi: u8 = (*port / 256) as u8;
            let lo: u8 = (*port % 256) as u8;
            let s = SockAddrV4 { port: [hi, lo], addr: *ip };
            assert(s.port@ =~= seq![hi, lo]);
            Some(s)
        },
        SocketAddress::V6 => None,
    }
}

/// Where a connect attempt is: the non-blocking connect is in progress and
/// not yet registered; it connected at once and the descriptor is still to
/// be handed out; it waits on a write registration with this state; or it
/// is over.
pub enum ConnectState<S> {
    Connecting,
    Connected,
    Waiting(S),
    Done,
}

/// Why a connect failed: an I/O error, or the socket's pending error code.
#[derive(Debug, PartialEq, Eq)]
pub enum ConnectError<E> {
    Io(E),
    Os(i32),
}

/// One poll of a connect: its outcome (the connected descriptor when
/// ready), and whether the descriptor must be closed.
#[derive(Debug, PartialEq, Eq)]
pub struct ConnectStep<E> {
    pub poll: Poll<Result<i32, ConnectError<E>>>,
    pub close_fd: bool,
}

/// The result of the initial non-blocking `connect` call.
pub enum ConnectAttempt<E> {
    Connected,
    InProgress,
    Failed(E),
}

/// What dropping a connect future does with its descriptor.
#[derive(Debug, Clone, Copy, PartialEq, Eq, Structural)]
pub enum DropAction {
    /// Close it.
    Close,
    /// Release its write registration, if any, then close it.
    ReleaseAndClose,
    /// Leave it: it was handed over or already closed.
    Nothing,
}

/// A connect in progress on a descriptor, with the reactor it registers
/// with.
pub struct ConnectFuture<R, S> {
    pub fd: i32,
    pub reactor: R,
    pub state: ConnectState<S>,
}

/// The outcome of a connect once the socket's error is known: a failed query
/// or a nonzero error fails it (and the descriptor is closed); zero means
/// connected, and the descriptor is handed out.
pub open spec fn spec_conclude<E>(fd: i32, socket_error: Result<i32, E>) -> ConnectStep<E> {
    match socket_error {
        Err(e) => ConnectStep { poll: Poll::Ready(Err(ConnectError::Io(e))), close_fd: true },
        Ok(code) => if code != 0 {
            ConnectStep { poll: Poll::Ready(Err(ConnectError::Os(code))), close_fd: true }
        } else {
            ConnectStep { poll: Poll::Ready(Ok(fd)), close_fd: false }
        },
    }
}

/// What dropping a connect in `state` does with its descriptor.
pub open spec fn spec_drop_action<S>(state: ConnectState<S>) -> DropAction {
    match state {
        ConnectState::Connecting => DropAction::Close,
        ConnectState::Connected => DropAction::Close,
        ConnectState::Waiting(_) => DropAction::ReleaseAndClose,
        ConnectState::Done => DropAction::Nothing,
    }
}

/// A pending step that closes nothing.
pub open spec fn pending_step<E>() -> ConnectStep<E> {
    ConnectStep { poll: Poll::Pending, close_fd: false }
}

impl<R, S> ConnectFuture<R, S> {
    /// The connect future after the initial `connect` call on `fd`: an
    /// immediate connection is connected (its first poll hands the
    /// descriptor out), one in progress is connecting, and a failure is
    /// handed back (the caller closes `fd`).
    pub fn from_attempt<E>(fd: i32, reactor: R, attempt: ConnectAttempt<E>) -> (r: Result<Self, E>)
        ensures
            match attempt {
                ConnectAttempt::Connected => r matches Ok(f) && f.fd == fd && f.reactor == reactor
                    && f.state is Connected,
                ConnectAttempt::InProgress => r matches Ok(f) && f.fd == fd && f.reactor == reactor
                    && f.state is Connecting,
                ConnectAttempt::Failed(e) => r == Err::<Self, E>(e),
            },
    {
        match attempt {
            ConnectAttempt::Connected => Ok(
                ConnectFuture { fd, reactor, state: ConnectState::Connected },
            ),
            ConnectAttempt::InProgress => Ok(
                ConnectFuture { fd, reactor, state: ConnectState::Connecting },
            ),
            ConnectAttempt::Failed(e) => Err(e),
        }
    }

    /// A poll while connecting, given the answer to registering write
    /// interest with a fresh registration state: success moves to waiting on
    /// that state and is pending; failure is ready with the error and closes
    /// the descriptor, and the connect is over, so that dropping it does not
    /// close the descriptor a second time.
    pub fn on_register<E>(&mut self, outcome: Result<S, E>) -> (step: ConnectStep<E>)
        requires
            old(self).state is Connecting,
        ensures
            final(self).fd == old(self).fd,
            final(self).reactor == old(self).reactor,
            match outcome {
                Ok(s) => final(self).state == ConnectState::Waiting(s) && step == pending_step::<E>(),
                Err(e) => final(self).state is Done && step == (ConnectStep {
                    poll: Poll::Ready(Err(ConnectError::Io(e))),
                    close_fd: true,
                }),
            },
    {
        match outcome {
            Ok(s) => {
                self.state = ConnectState::Waiting(s);
                ConnectStep { poll: Poll::Pending, close_fd: false }
            },
            Err(e) => {
                self.state = ConnectState::Done;
                ConnectStep { poll: Poll::Ready(Err(ConnectError::Io(e))), close_fd: true }
            },
        }
    }

    /// A poll after an immediate connection: ready with the connected
    /// descriptor, which is handed out (not closed); the connect is over.
    pub fn poll_connected<E>(&mut self) -> (step: ConnectStep<E>)
        requires
            old(self).state is Connected,
        ensures
            final(self).fd == old(self).fd,
            final(self).reactor == old(self).reactor,
            final(self).state is Done,
            step == (ConnectStep::<E> { poll: Poll::Ready(Ok(old(self).fd)), close_fd: false }),
    {
        self.state = ConnectState::Done;
        ConnectStep { poll: Poll::Ready(Ok(self.fd)), close_fd: false }
    }

    /// A poll while waiting: as long as the write registration is active the
    /// poll is pending; once the reactor consumed it, the socket's error is
    /// queried (only then) and decides the outcome, and the connect is over.
    pub fn poll_waiting<E, F: FnOnce() -> Result<i32, E>>(
        &mut self,
        registered: bool,
        socket_error: F,
    ) -> (step: ConnectStep<E>)
        requires
            old(self).state is Waiting,
            !registered ==> socket_error.requires(()),
        ensures
            final(self).fd == old(self).fd,
            final(self).reactor == old(self).reactor,
            registered ==> final(self).state == old(self).state && step == pending_step::<E>(),
            !registered ==> final(self).state is Done && exists|r: Result<i32, E>|
                socket_error.ensures((), r) && step == spec_conclude(old(self).fd, r),
    {
        if registered {
            return ConnectStep { poll: Poll::Pending, close_fd: false };
        }
        let r = socket_error();
        self.state = ConnectState::Done;
        let ghost rr = r;
        let step = match r {
            Err(e) => ConnectStep { poll: Poll::Ready(Err(ConnectError::Io(e))), close_fd: true },
            Ok(code) => {
                if code != 0 {
                    ConnectStep { poll: Poll::Ready(Err(ConnectError::Os(code))), close_fd: true }
                } else {
                    ConnectStep { poll: Poll::Ready(Ok(self.fd)), close_fd: false }
                }
            },
        };
        assert(socket_error.ensures((), rr) && step == spec_conclude(old(self).fd, rr));
        step
    }

    /// What dropping the future does: a connect never registered, or
    /// connected but not yet polled, closes its descriptor; a waiting one
    /// releases its registration and closes it; a finished one leaves it
    /// alone.
    pub fn drop_action(&self) -> (a: DropAction)
        ensures
            a == spec_drop_action(self.state),
    {
        match &self.state {
            ConnectState::Connecting => DropAction::Close,
            ConnectState::Connected => DropAction::Close,
            ConnectState::Waiting(_) => DropAction::ReleaseAndClose,
            ConnectState::Done => DropAction::Nothing,
        }
    }
}

/// Once a connect learns its outcome (a failed registration, or the
/// socket's error after waiting) it is over, so dropping it leaves the
/// descriptor alone: the descriptor was closed by that poll exactly when the
/// connect failed, and otherwise handed out; each descriptor is closed at
/// most once. A connect
/// dropped before its outcome, or connected at once and dropped before its
/// first poll, closes the descriptor itself.
pub proof fn lemma_connect_closes_once<S, E>(fd: i32, socket_error: Result<i32, E>)
    ensures
        spec_drop_action(ConnectState::<S>::Done) == DropAction::Nothing,
        spec_conclude(fd, socket_error).close_fd <==> !(socket_error matches Ok(0i32)),
        spec_conclude(fd, socket_error).poll matches Poll::Ready(Ok(handed)) ==> handed == fd
            && !spec_conclude(fd, socket_error).close_fd,
        spec_drop_action(ConnectState::<S>::Connecting) == DropAction::Close,
        spec_drop_action(ConnectState::<S>::Connected) == DropAction::Close,
        forall|st: S|
            #[trigger] spec_drop_action(ConnectState::Waiting(st)) == DropAction::ReleaseAndClose,
        socket_error matches Err(e) ==> spec_conclude(fd, socket_error).poll == Poll::<
            Result<i32, ConnectError<E>>,
        >::Ready(Err(ConnectError::Io(e))),
        forall|code: i32|
            code != 0 ==> (#[trigger] spec_conclude::<E>(fd, Ok(code))).poll == Poll::<
                Result<i32, ConnectError<E>>,
            >::Ready(Err(ConnectError::Os(code))),
        socket_error == Ok::<i32, E>(0) ==> spec_conclude(fd, socket_error).poll == Poll::<
            Result<i32, ConnectError<E>>,
        >::Ready(Ok(fd)),
        !(spec_conclude(fd, socket_error).poll is Pending),
{
}

} // verus!
