use thrust_rs::futures::connect::{
    ipv4_sockaddr, ConnectAttempt, ConnectError, ConnectFuture, ConnectState, ConnectStep,
    DropAction, SocketAddress,
};
use thrust_rs::futures::Poll;
use thrust_rs::net::{after_register, poll_io, tokens_to_release, IoAttempt, IoStep};
use thrust_rs::reactor::kqueue::{make_event, EventFlags, Filter};
use thrust_rs::reactor::registration::RegistrationState;
use thrust_rs::reactor::{Interest, Reactor, Token};

const ECONNREFUSED: i32 = 61;

#[test]
fn test_connect_refused() {
    let mut reactor: Reactor<u8> = Reactor::new();
    let fd = 12;
    let mut future: ConnectFuture<(), usize> =
        ConnectFuture::from_attempt::<()>(fd, (), ConnectAttempt::InProgress).unwrap();
    assert!(matches!(future.state, ConnectState::Connecting));

    // First poll: register write interest, pending.
    let mut state = RegistrationState::new();
    let change = reactor.register_change(fd, Interest::WRITE);
    let token = reactor.complete_register(Token(change.token), fd, Interest::WRITE, 0, &mut state);
    let step = future.on_register::<()>(Ok(token.0));
    assert_eq!(step, ConnectStep { poll: Poll::Pending, close_fd: false });

    // Still registered: pending, the socket is not queried.
    let step = future.poll_waiting(state.is_registered(), || -> Result<i32, ()> {
        panic!("queried while registered")
    });
    assert_eq!(step.poll, Poll::Pending);

    // The reactor consumes the readiness event and clears the state.
    let woken = reactor.dispatch(&[make_event(
        fd as usize,
        Filter::Write,
        EventFlags { add: false, delete: false, clear: false },
        token.0,
    )]);
    assert_eq!(woken.len(), 1);
    state.clear_token();

    let step = future.poll_waiting(state.is_registered(), || Ok::<i32, ()>(ECONNREFUSED));
    assert_eq!(
        step,
        ConnectStep { poll: Poll::Ready(Err(ConnectError::Os(ECONNREFUSED))), close_fd: true }
    );
    assert!(matches!(future.state, ConnectState::Done));
    assert_eq!(future.drop_action(), DropAction::Nothing);
}

#[test]
fn connect_success_hands_out_the_descriptor() {
    let mut future: ConnectFuture<(), u8> =
        ConnectFuture::from_attempt::<()>(3, (), ConnectAttempt::InProgress).unwrap();
    future.on_register::<()>(Ok(1));
    let step = future.poll_waiting(false, || Ok::<i32, ()>(0));
    assert_eq!(step, ConnectStep { poll: Poll::Ready(Ok(3)), close_fd: false });
}

#[test]
fn connect_cancel_releases_registration() {
    let mut reactor: Reactor<u8> = Reactor::new();
    let mut future: ConnectFuture<(), RegistrationState> =
        ConnectFuture::from_attempt::<()>(20, (), ConnectAttempt::InProgress).unwrap();
    assert_eq!(future.drop_action(), DropAction::Close);
    let mut state = RegistrationState::new();
    let change = reactor.register_change(20, Interest::WRITE);
    reactor.complete_register(Token(change.token), 20, Interest::WRITE, 0, &mut state);
    assert_eq!(reactor.len(), 1, "registration not inserted");
    future.on_register::<()>(Ok(state));
    match &future.state {
        ConnectState::Waiting(state) => {
            assert!(state.is_registered(), "token not stored in RegistrationState");
            assert!(state.get_token().is_some(), "token missing");
        }
        _ => panic!("expected Waiting state"),
    }
    assert_eq!(future.drop_action(), DropAction::ReleaseAndClose);
    if let ConnectState::Waiting(state) = &future.state {
        reactor.deregister_fd(future.fd, state.get_token().unwrap());
    }
    assert_eq!(reactor.len(), 0, "registry entry leaked");
}

#[test]
fn connect_register_failure_closes() {
    let mut future: ConnectFuture<(), u8> =
        ConnectFuture::from_attempt::<&str>(4, (), ConnectAttempt::InProgress).unwrap();
    let step = future.on_register(Err("no space"));
    assert_eq!(step, ConnectStep { poll: Poll::Ready(Err(ConnectError::Io("no space"))), close_fd: true });
    assert!(matches!(future.state, ConnectState::Done));
    // The poll closed the descriptor; dropping the future does not close it again.
    assert_eq!(future.drop_action(), DropAction::Nothing);
}

#[test]
fn connect_attempt_outcomes() {
    let mut done: ConnectFuture<(), u8> =
        ConnectFuture::from_attempt::<()>(5, (), ConnectAttempt::Connected).unwrap();
    assert!(matches!(done.state, ConnectState::Connected));
    assert_eq!(done.fd, 5);
    // Dropped before its first poll, it would close the descriptor.
    assert_eq!(done.drop_action(), DropAction::Close);
    let step = done.poll_connected::<()>();
    assert_eq!(step, ConnectStep { poll: Poll::Ready(Ok(5)), close_fd: false });
    assert!(matches!(done.state, ConnectState::Done));
    assert_eq!(done.drop_action(), DropAction::Nothing);
    let failed = ConnectFuture::<(), u8>::from_attempt(5, (), ConnectAttempt::Failed("refused"));
    assert!(matches!(failed, Err("refused")));
}

#[test]
fn sockaddr_is_network_order() {
    let s = ipv4_sockaddr(&SocketAddress::V4 { ip: [127, 0, 0, 1], port: 8080 }).unwrap();
    assert_eq!(s.port, [0x1f, 0x90]);
    assert_eq!(s.addr, [127, 0, 0, 1]);
    assert_eq!(u16::from_be_bytes(s.port), 8080);
    assert_eq!(ipv4_sockaddr(&SocketAddress::V6), None);
}

#[test]
fn socket_poll_steps() {
    assert_eq!(poll_io::<usize, ()>(IoAttempt::Done(5), false), IoStep::Ready(Ok(5)));
    assert_eq!(poll_io::<usize, &str>(IoAttempt::Failed("reset"), true), IoStep::Ready(Err("reset")));
    assert_eq!(poll_io::<usize, ()>(IoAttempt::WouldBlock, false), IoStep::Register);
    assert_eq!(poll_io::<usize, ()>(IoAttempt::WouldBlock, true), IoStep::Wait);
    assert_eq!(after_register::<usize, ()>(Ok(Token(1))), Poll::Pending);
    assert_eq!(after_register::<usize, &str>(Err("bad fd")), Poll::Ready(Err("bad fd")));
}

#[test]
fn stream_drop_releases_active_registrations() {
    let mut read = RegistrationState::new();
    let mut write = RegistrationState::new();
    assert!(tokens_to_release(&read, &write).is_empty());
    read.set_token(Token(3));
    write.set_token(Token(4));
    assert_eq!(tokens_to_release(&read, &write), vec![Token(3), Token(4)]);
}
