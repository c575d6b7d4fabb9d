use strumlink::{
    Config, InboundMessage, Session, SessionEvent, SessionPhase, ServerState,
};

fn frame(kind: &str) -> InboundMessage {
    InboundMessage {
        msg_type: kind.to_string(),
        value: None,
        key: None,
        direction: None,
        pressed: None,
        pin: None,
        t: None,
    }
}

fn auth_frame(pin: &str) -> InboundMessage {
    let mut m = frame("auth");
    m.pin = Some(pin.to_string());
    m
}

fn fret_frame(value: &str, pressed: bool) -> InboundMessage {
    let mut m = frame("fret");
    m.value = Some(value.to_string());
    m.pressed = Some(pressed);
    m
}

#[test]
fn auth_success_then_press_then_disconnect() {
    let config = Config::default();
    let mut state = ServerState::new();
    let mut session = Session::new();

    let eff = session.step(SessionEvent::Frame(auth_frame("1234")), &config, &mut state);
    assert!(session.phase == SessionPhase::Authenticated);
    let reply = eff.reply.expect("auth reply owed");
    assert_eq!(reply.msg_type, "auth_success");
    assert!(reply.message.is_none());
    assert_eq!(state.connected_clients, 1);

    let eff = session.step(SessionEvent::Frame(fret_frame("green", true)), &config, &mut state);
    let press = eff.key_event.expect("translator call owed");
    assert_eq!(press.action, "green");
    assert!(press.pressed);
    assert!(eff.reply.is_none());

    let eff = session.step(SessionEvent::Closed, &config, &mut state);
    assert!(session.phase == SessionPhase::Terminated);
    assert!(eff.release_keys);
    assert_eq!(state.connected_clients, 0);
}

#[test]
fn auth_wrong_pin_terminates_without_counting() {
    let config = Config::default();
    let mut state = ServerState::new();
    let mut session = Session::new();

    let eff = session.step(SessionEvent::Frame(auth_frame("9999")), &config, &mut state);
    assert!(session.phase == SessionPhase::Terminated);
    let reply = eff.reply.expect("auth_failed reply owed");
    assert_eq!(reply.msg_type, "auth_failed");
    assert_eq!(reply.message.as_deref(), Some("Invalid PIN"));
    assert_eq!(state.connected_clients, 0);
    assert!(eff.key_event.is_none());
    assert!(!eff.release_keys);
}

#[test]
fn auth_without_pin_is_rejected() {
    let config = Config::default();
    let mut state = ServerState::new();
    let mut session = Session::new();

    let eff = session.step(SessionEvent::Frame(frame("auth")), &config, &mut state);
    assert!(session.phase == SessionPhase::Terminated);
    assert_eq!(eff.reply.expect("auth_failed reply owed").msg_type, "auth_failed");
    assert_eq!(state.connected_clients, 0);
}

#[test]
fn non_auth_first_frame_terminates_silently() {
    let config = Config::default();
    let mut state = ServerState::new();
    let mut session = Session::new();

    let eff = session.step(SessionEvent::Frame(fret_frame("green", true)), &config, &mut state);
    assert!(session.phase == SessionPhase::Terminated);
    assert!(eff.reply.is_none());
    assert!(eff.key_event.is_none());
    assert_eq!(state.connected_clients, 0);
}

#[test]
fn auth_timeout_terminates_without_counting() {
    let config = Config::default();
    let mut state = ServerState::new();
    let mut session = Session::new();

    let eff = session.step(SessionEvent::Timeout, &config, &mut state);
    assert!(session.phase == SessionPhase::Terminated);
    assert!(eff.reply.is_none());
    assert!(eff.key_event.is_none());
    assert!(!eff.release_keys);
    assert_eq!(state.connected_clients, 0);
}

#[test]
fn ping_echoes_timestamp() {
    let config = Config::default();
    let mut state = ServerState::new();
    let mut session = Session::new();
    session.step(SessionEvent::Frame(auth_frame("1234")), &config, &mut state);

    let mut ping = frame("ping");
    ping.t = Some(1699999999);
    let eff = session.step(SessionEvent::Frame(ping), &config, &mut state);
    let reply = eff.reply.expect("pong owed");
    assert_eq!(reply.msg_type, "pong");
    assert_eq!(reply.t, Some(1699999999));
    assert!(reply.message.is_none());
    assert!(session.phase == SessionPhase::Authenticated);
}

#[test]
fn ping_without_timestamp_echoes_absence() {
    let config = Config::default();
    let mut state = ServerState::new();
    let mut session = Session::new();
    session.step(SessionEvent::Frame(auth_frame("1234")), &config, &mut state);

    let eff = session.step(SessionEvent::Frame(frame("ping")), &config, &mut state);
    let reply = eff.reply.expect("pong owed");
    assert_eq!(reply.msg_type, "pong");
    assert_eq!(reply.t, None);
}

#[test]
fn repeated_presses_are_not_deduplicated() {
    let config = Config::default();
    let mut state = ServerState::new();
    let mut session = Session::new();
    session.step(SessionEvent::Frame(auth_frame("1234")), &config, &mut state);

    let first = session.step(SessionEvent::Frame(fret_frame("green", true)), &config, &mut state);
    let second = session.step(SessionEvent::Frame(fret_frame("green", true)), &config, &mut state);
    let p1 = first.key_event.expect("first press owed");
    let p2 = second.key_event.expect("second press owed");
    assert_eq!(p1.action, "green");
    assert_eq!(p2.action, "green");
    assert!(p1.pressed && p2.pressed);
}

#[test]
fn malformed_frames_ignored_once_authenticated() {
    let config = Config::default();
    let mut state = ServerState::new();
    let mut session = Session::new();
    session.step(SessionEvent::Frame(auth_frame("1234")), &config, &mut state);

    let eff = session.step(SessionEvent::Malformed, &config, &mut state);
    assert!(session.phase == SessionPhase::Authenticated);
    assert!(eff.reply.is_none());
    assert!(eff.key_event.is_none());
    assert!(!eff.release_keys);
    assert_eq!(state.connected_clients, 1);
}

#[test]
fn events_after_termination_do_nothing() {
    let config = Config::default();
    let mut state = ServerState::new();
    let mut session = Session::new();
    session.step(SessionEvent::Timeout, &config, &mut state);

    let eff = session.step(SessionEvent::Frame(frame("ping")), &config, &mut state);
    assert!(session.phase == SessionPhase::Terminated);
    assert!(eff.reply.is_none());
    assert!(eff.key_event.is_none());
    assert_eq!(state.connected_clients, 0);
}

#[test]
fn two_sessions_count_independently() {
    let config = Config::default();
    let mut state = ServerState::new();

    let mut a = Session::new();
    let mut b = Session::new();
    a.step(SessionEvent::Frame(auth_frame("1234")), &config, &mut state);
    b.step(SessionEvent::Frame(auth_frame("1234")), &config, &mut state);
    assert_eq!(state.connected_clients, 2);

    a.step(SessionEvent::Closed, &config, &mut state);
    assert_eq!(state.connected_clients, 1);
    b.step(SessionEvent::Closed, &config, &mut state);
    assert_eq!(state.connected_clients, 0);
}
