//! Tests of the session state machine.

use remote_desk::error::SessionError;
use remote_desk::state::{SessionState, SessionStateMachine};

#[test]
fn test_initial_state() {
    let sm = SessionStateMachine::new();
    assert_eq!(sm.current(), SessionState::Idle);
    assert!(!sm.is_active());
    assert!(!sm.is_terminated());
}

#[test]
fn test_valid_transition() {
    let mut sm = SessionStateMachine::new();

    assert!(sm.transition(SessionState::Connecting).is_ok());
    assert_eq!(sm.current(), SessionState::Connecting);

    assert!(sm.transition(SessionState::Authenticating).is_ok());
    assert_eq!(sm.current(), SessionState::Authenticating);

    assert!(sm.transition(SessionState::Active).is_ok());
    assert_eq!(sm.current(), SessionState::Active);
    assert!(sm.is_active());
}

#[test]
fn test_invalid_transition() {
    let mut sm = SessionStateMachine::new();

    let result = sm.transition(SessionState::Active);
    assert!(result.is_err());
    assert_eq!(sm.current(), SessionState::Idle);
}

#[test]
fn test_invalid_transition_names_states() {
    let mut sm = SessionStateMachine::new();
    match sm.transition(SessionState::Active) {
        Err(SessionError::InvalidStateTransition { from, to }) => {
            assert_eq!(from, "Idle");
            assert_eq!(to, "Active");
        }
        _ => panic!("expected InvalidStateTransition"),
    }
}

#[test]
fn test_pause_resume() {
    let mut sm = SessionStateMachine::new();

    sm.transition(SessionState::Connecting).unwrap();
    sm.transition(SessionState::Authenticating).unwrap();
    sm.transition(SessionState::Active).unwrap();

    assert!(sm.transition(SessionState::Paused).is_ok());
    assert!(!sm.is_active());

    assert!(sm.transition(SessionState::Active).is_ok());
    assert!(sm.is_active());
}

#[test]
fn test_disconnection_from_any_connected_state() {
    for start_state in [
        SessionState::Active,
        SessionState::Paused,
        SessionState::Authenticating,
    ] {
        let mut sm = SessionStateMachine::new();
        sm.force_transition(start_state);

        assert!(sm.transition(SessionState::Disconnecting).is_ok());
        assert!(sm.transition(SessionState::Disconnected).is_ok());
        assert!(sm.is_terminated());
    }
}

#[test]
fn test_history_tracking() {
    let mut sm = SessionStateMachine::new();

    sm.transition(SessionState::Connecting).unwrap();
    sm.transition(SessionState::Authenticating).unwrap();
    sm.transition(SessionState::Active).unwrap();

    assert_eq!(sm.history().len(), 3);

    let last = sm.last_transition().unwrap();
    assert_eq!(last.from, SessionState::Authenticating);
    assert_eq!(last.to, SessionState::Active);
}

#[test]
fn test_history_trimming() {
    let mut sm = SessionStateMachine::with_max_history(2);

    sm.transition(SessionState::Connecting).unwrap();
    sm.transition(SessionState::Authenticating).unwrap();
    sm.transition(SessionState::Active).unwrap();

    assert_eq!(sm.history().len(), 2);
}

#[test]
fn test_state_display() {
    assert_eq!(SessionState::Active.label(), "Active");
    assert_eq!(SessionState::Disconnected.label(), "Disconnected");
}

#[test]
fn test_reset() {
    let mut sm = SessionStateMachine::new();
    sm.transition(SessionState::Connecting).unwrap();
    sm.transition(SessionState::Authenticating).unwrap();

    sm.reset();

    assert_eq!(sm.current(), SessionState::Idle);
    assert!(sm.history().is_empty());
}

#[test]
fn test_terminal_state_has_no_exits() {
    let mut sm = SessionStateMachine::new();
    sm.force_transition(SessionState::Disconnected);
    assert!(SessionState::Disconnected.valid_transitions().is_empty());
    for target in [
        SessionState::Idle,
        SessionState::Connecting,
        SessionState::Authenticating,
        SessionState::Active,
        SessionState::Paused,
        SessionState::Disconnecting,
        SessionState::Disconnected,
    ] {
        assert!(!sm.can_transition(target));
        assert!(sm.transition(target).is_err());
    }
}

#[test]
fn test_every_taken_edge_is_listed() {
    let states = [
        SessionState::Idle,
        SessionState::Connecting,
        SessionState::Authenticating,
        SessionState::Active,
        SessionState::Paused,
        SessionState::Disconnecting,
        SessionState::Disconnected,
    ];
    for from in states {
        for to in states {
            let mut sm = SessionStateMachine::new();
            sm.force_transition(from);
            let listed = from.valid_transitions().contains(&to);
            assert_eq!(sm.transition(to).is_ok(), listed);
        }
    }
}
