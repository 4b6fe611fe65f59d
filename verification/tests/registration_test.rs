use std::sync::{Arc, Mutex};

use thrust_rs::reactor::registration::{RegistrationState, INVALID_TOKEN};
use thrust_rs::reactor::Token;

#[test]
fn registration_state_lifecycle() {
    let mut state = RegistrationState::new();

    assert_eq!(state.get_token(), None);
    assert!(!state.is_registered());

    let token = Token(42);

    state.set_token(token);

    assert_eq!(state.get_token(), Some(Token(42)));
    assert!(state.is_registered());

    state.clear_token();

    assert_eq!(state.get_token(), None);
    assert!(!state.is_registered());
}

#[test]
fn registration_state_shared_between_arcs() {
    let state = Arc::new(Mutex::new(RegistrationState::new()));

    let clone = state.clone();

    state.lock().unwrap().set_token(Token(7));

    assert_eq!(clone.lock().unwrap().get_token(), Some(Token(7)));
    assert!(clone.lock().unwrap().is_registered());

    clone.lock().unwrap().clear_token();

    assert_eq!(state.lock().unwrap().get_token(), None);
    assert!(!state.lock().unwrap().is_registered());
}

#[test]
fn registration_state_cleared_when_reactor_consumes_event() {
    let mut state = RegistrationState::new();

    state.set_token(Token(99));

    assert!(state.is_registered());

    state.clear_token();

    assert!(!state.is_registered());
    assert_eq!(state.get_token(), None);
}

#[test]
fn registration_state_reserved_token_reads_back_unregistered() {
    let mut state = RegistrationState::new();
    state.set_token(Token(INVALID_TOKEN));
    assert_eq!(state.get_token(), None);
    assert!(!state.is_registered());
    state.set_token(Token(0));
    assert_eq!(state.get_token(), Some(Token(0)));
}
