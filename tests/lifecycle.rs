use chlorate::guard::CallbackGuard;
use chlorate::session::{EngineSession, EngineState, SessionError};

#[test]
fn open_guard_passes_decoded_events_only() {
    let g = CallbackGuard::new();
    assert!(g.open());
    let mut delivered = 0;
    for e in [Some("a"), None, Some("b"), None] {
        if g.pass_event(e).is_some() {
            delivered += 1;
        }
    }
    assert_eq!(delivered, 2);
}

#[test]
fn closed_guard_delivers_nothing() {
    let mut g = CallbackGuard::new();
    assert_eq!(g.pass_event(Some(1)), Some(1));
    g.close();
    assert!(!g.open());
    assert_eq!(g.pass_event(Some(2)), None);
    assert_eq!(g.pass_event::<i32>(None), None);
}

#[test]
fn session_runs_create_start_destroy() {
    let mut s = EngineSession::new();
    assert_eq!(s.state(), EngineState::Uncreated);
    assert!(!s.accepts_audio());
    assert_eq!(s.on_created(false), Ok(()));
    assert_eq!(s.state(), EngineState::Created);
    assert!(!s.accepts_audio());
    s.on_started();
    assert!(s.accepts_audio());
    assert!(s.teardown());
    assert_eq!(s.state(), EngineState::Destroyed);
    assert!(!s.accepts_audio());
    assert!(!s.teardown());
}

#[test]
fn null_handle_is_a_creation_failure() {
    let mut s = EngineSession::new();
    assert_eq!(s.on_created(true), Err(SessionError::CreationFailed));
    assert_eq!(s.state(), EngineState::Uncreated);
    assert!(!s.teardown());
}

#[test]
fn created_but_unstarted_instance_is_destroyed() {
    let mut s = EngineSession::new();
    assert!(s.on_created(false).is_ok());
    assert!(s.teardown());
    assert!(!s.teardown());
}
