use strumlink::{dispatch, InboundMessage, RouteDecision};

fn frame(kind: &str) -> InboundMessage {
    InboundMessage {
        msg_type: kind.to_string(),
        value: None,
        key: None,
        direction: None,
        pressed: None,
        pin: None,
        t: None,
    }
}

#[test]
fn ping_becomes_pong() {
    let mut m = frame("ping");
    m.t = Some(77);
    match dispatch(&m) {
        RouteDecision::Reply(r) => {
            assert_eq!(r.msg_type, "pong");
            assert_eq!(r.t, Some(77));
            assert!(r.message.is_none());
        }
        _ => panic!("ping must reply"),
    }
}

#[test]
fn fret_value_outside_whitelist_is_ignored() {
    let mut m = frame("fret");
    m.value = Some("purple".to_string());
    m.pressed = Some(true);
    assert!(matches!(dispatch(&m), RouteDecision::Ignore));
}

#[test]
fn unknown_type_is_ignored() {
    let mut m = frame("jackhammer");
    m.value = Some("green".to_string());
    m.pressed = Some(true);
    assert!(matches!(dispatch(&m), RouteDecision::Ignore));
}

#[test]
fn each_fret_name_is_accepted() {
    for name in ["green", "red", "yellow", "blue", "orange"] {
        let mut m = frame("fret");
        m.value = Some(name.to_string());
        m.pressed = Some(true);
        match dispatch(&m) {
            RouteDecision::KeyEvent(ev) => {
                assert_eq!(ev.action, name);
                assert!(ev.pressed);
            }
            _ => panic!("fret {name} must reach the translator"),
        }
    }
}

#[test]
fn fret_without_payload_is_ignored() {
    let mut m = frame("fret");
    m.pressed = Some(true);
    assert!(matches!(dispatch(&m), RouteDecision::Ignore));
}

#[test]
fn payload_prefers_value_then_key_then_direction() {
    let mut m = frame("fret");
    m.value = Some("green".to_string());
    m.key = Some("red".to_string());
    m.direction = Some("yellow".to_string());
    match dispatch(&m) {
        RouteDecision::KeyEvent(ev) => assert_eq!(ev.action, "green"),
        _ => panic!("fret must reach the translator"),
    }

    let mut m = frame("fret");
    m.key = Some("red".to_string());
    m.direction = Some("yellow".to_string());
    match dispatch(&m) {
        RouteDecision::KeyEvent(ev) => assert_eq!(ev.action, "red"),
        _ => panic!("fret must reach the translator"),
    }

    let mut m = frame("fret");
    m.direction = Some("yellow".to_string());
    match dispatch(&m) {
        RouteDecision::KeyEvent(ev) => assert_eq!(ev.action, "yellow"),
        _ => panic!("fret must reach the translator"),
    }
}

#[test]
fn strum_prefixes_any_direction() {
    let mut m = frame("strum");
    m.direction = Some("up".to_string());
    m.pressed = Some(true);
    match dispatch(&m) {
        RouteDecision::KeyEvent(ev) => assert_eq!(ev.action, "strum_up"),
        _ => panic!("strum must reach the translator"),
    }

    let mut m = frame("strum");
    m.direction = Some("sideways".to_string());
    m.pressed = Some(true);
    match dispatch(&m) {
        RouteDecision::KeyEvent(ev) => assert_eq!(ev.action, "strum_sideways"),
        _ => panic!("strum accepts any direction"),
    }
}

#[test]
fn drum_prefixes_pads_and_kick_alike() {
    let mut m = frame("drum");
    m.value = Some("kick".to_string());
    m.pressed = Some(true);
    match dispatch(&m) {
        RouteDecision::KeyEvent(ev) => assert_eq!(ev.action, "drum_kick"),
        _ => panic!("drum must reach the translator"),
    }

    let mut m = frame("drum");
    m.value = Some("red".to_string());
    m.pressed = Some(false);
    match dispatch(&m) {
        RouteDecision::KeyEvent(ev) => {
            assert_eq!(ev.action, "drum_red");
            assert!(!ev.pressed);
        }
        _ => panic!("drum must reach the translator"),
    }
}

#[test]
fn action_and_navigation_types_name_themselves() {
    for name in ["starpower", "whammy", "start", "select", "left", "right", "up", "down"] {
        let mut m = frame(name);
        m.pressed = Some(true);
        match dispatch(&m) {
            RouteDecision::KeyEvent(ev) => {
                assert_eq!(ev.action, name);
                assert!(ev.pressed);
            }
            _ => panic!("{name} must reach the translator"),
        }
    }
}

#[test]
fn absent_pressed_means_release() {
    let mut m = frame("whammy");
    m.value = Some("ignored".to_string());
    match dispatch(&m) {
        RouteDecision::KeyEvent(ev) => {
            assert_eq!(ev.action, "whammy");
            assert!(!ev.pressed);
        }
        _ => panic!("whammy must reach the translator"),
    }
}
