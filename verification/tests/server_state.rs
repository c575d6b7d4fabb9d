use strumlink::{ServerState, StartError};

#[test]
fn fresh_state_is_idle() {
    let state = ServerState::new();
    assert!(!state.is_running);
    assert!(!state.should_stop);
    assert_eq!(state.connected_clients, 0);
}

#[test]
fn begin_run_starts_once() {
    let mut state = ServerState::new();
    assert!(state.begin_run().is_ok());
    assert!(state.is_running);
    assert!(!state.should_stop);
    assert!(matches!(state.begin_run(), Err(StartError::AlreadyRunning)));
    assert!(state.is_running);
}

#[test]
fn restart_after_stop_is_allowed() {
    let mut state = ServerState::new();
    assert!(state.begin_run().is_ok());
    state.request_stop();
    assert!(!state.is_running);
    assert!(state.should_stop);
    assert!(state.begin_run().is_ok());
    assert!(state.is_running);
    assert!(!state.should_stop);
}

#[test]
fn stop_request_halts_accepting() {
    let mut state = ServerState::new();
    assert!(state.begin_run().is_ok());
    assert!(state.should_accept());
    state.request_stop();
    assert!(!state.should_accept());
}

#[test]
fn client_count_tracks_connects_and_disconnects() {
    let mut state = ServerState::new();
    state.client_connected();
    state.client_connected();
    state.client_connected();
    assert_eq!(state.connected_clients, 3);
    state.client_disconnected();
    state.client_disconnected();
    assert_eq!(state.connected_clients, 1);
    state.client_disconnected();
    assert_eq!(state.connected_clients, 0);
}

#[test]
fn client_count_never_goes_below_zero() {
    let mut state = ServerState::new();
    state.client_disconnected();
    assert_eq!(state.connected_clients, 0);
    state.client_connected();
    state.client_disconnected();
    state.client_disconnected();
    assert_eq!(state.connected_clients, 0);
}

#[test]
fn stopping_keeps_the_client_count() {
    let mut state = ServerState::new();
    assert!(state.begin_run().is_ok());
    state.client_connected();
    state.request_stop();
    assert_eq!(state.connected_clients, 1);
}
