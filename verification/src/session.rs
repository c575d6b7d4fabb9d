//! The per-connection session state machine. A session waits for exactly one
//! authentication frame, then runs the authenticated message loop, then
//! cleans up. Each call of [`Session::step`] consumes one connection event
//! and yields the effects the caller must perform: a reply to send, a
//! translator call to make, the cleanup to run. The caller performs them in
//! that order, so a reply for one frame is sent before the next is read.

use vstd::prelude::*;

use crate::config::Config;
use crate::protocol::{auth_failed_view, auth_success_view, InboundMessage, InboundView, OutboundMessage};
use crate::protocol::{pong_view, OutboundView};
use crate::router::{dispatch, effective_value, is_fret_value, route, ActionEvent, ActionView, RouteDecision, RouteView};
use crate::state::{count_step, ClientEvent, ServerState};
use crate::text::str_eq;

verus! {

/// The authentication window: how long a fresh connection has to deliver
/// its one authentication frame before the session times out.
pub const AUTH_WINDOW_SECS: u64 = 10;

/// Where a session stands: waiting for its one authentication frame,
/// serving the authenticated message loop, or done.
#[derive(PartialEq, Eq, Structural, Clone, Copy)]
pub enum SessionPhase {
    AwaitingAuth,
    Authenticated,
    Terminated,
}

/// One thing that happened on the connection, as the transport saw it.
pub enum SessionEvent {
    /// A frame arrived and decoded into a message.
    Frame(InboundMessage),
    /// A frame arrived but did not decode.
    Malformed,
    /// The authentication window elapsed in silence.
    Timeout,
    /// A close frame, end of stream, or transport error.
    Closed,
}

/// The mathematical shape of a connection event.
pub enum SessionEventView {
    Frame(InboundView),
    Malformed,
    Timeout,
    Closed,
}

impl View for SessionEvent {
    type V = SessionEventView;

    open spec fn view(&self) -> SessionEventView {
        match self {
            SessionEvent::Frame(m) => SessionEventView::Frame(m@),
            SessionEvent::Malformed => SessionEventView::Malformed,
            SessionEvent::Timeout => SessionEventView::Timeout,
            SessionEvent::Closed => SessionEventView::Closed,
        }
    }
}

/// What one step asks the caller to do, in order: send the reply, make the
/// translator call, run the cleanup capability.
pub struct StepEffects {
    pub reply: Option<OutboundMessage>,
    pub key_event: Option<ActionEvent>,
    pub release_keys: bool,
}

/// The mathematical shape of a step's effects.
pub struct EffectsView {
    pub reply: Option<OutboundView>,
    pub key_event: Option<ActionView>,
    pub release_keys: bool,
}

impl View for StepEffects {
    type V = EffectsView;

    open spec fn view(&self) -> EffectsView {
        EffectsView {
            reply: match &self.reply {
                Some(m) => Some(m@),
                None => None,
            },
            key_event: match &self.key_event {
                Some(ev) => Some(ev@),
                None => None,
            },
            release_keys: self.release_keys,
        }
    }
}

/// A well-formed authentication frame carrying the server's PIN.
pub open spec fn is_good_auth(m: InboundView, pin: Seq<char>) -> bool {
    m.msg_type == "auth"@ && m.pin == Some(pin)
}

/// The phase after one event. Only a good authentication frame leaves
/// `AwaitingAuth` alive; once authenticated, only the connection's end
/// terminates; `Terminated` is final.
pub open spec fn next_phase(phase: SessionPhase, ev: SessionEventView, pin: Seq<char>) -> SessionPhase {
    match phase {
        SessionPhase::AwaitingAuth => match ev {
            SessionEventView::Frame(m) => if is_good_auth(m, pin) {
                SessionPhase::Authenticated
            } else {
                SessionPhase::Terminated
            },
            _ => SessionPhase::Terminated,
        },
        SessionPhase::Authenticated => match ev {
            SessionEventView::Closed => SessionPhase::Terminated,
            _ => SessionPhase::Authenticated,
        },
        SessionPhase::Terminated => SessionPhase::Terminated,
    }
}

/// The effects of one event. Before authentication nothing is ever routed:
/// the only possible effects are the two authentication replies. Malformed
/// frames in the authenticated loop are silently dropped. The cleanup
/// capability runs exactly when the authenticated loop ends.
pub open spec fn step_effects(phase: SessionPhase, ev: SessionEventView, pin: Seq<char>) -> EffectsView {
    let nothing = EffectsView { reply: None, key_event: None, release_keys: false };
    match phase {
        SessionPhase::AwaitingAuth => match ev {
            SessionEventView::Frame(m) => if is_good_auth(m, pin) {
                EffectsView { reply: Some(auth_success_view()), ..nothing }
            } else if m.msg_type == "auth"@ {
                EffectsView { reply: Some(auth_failed_view()), ..nothing }
            } else {
                nothing
            },
            _ => nothing,
        },
        SessionPhase::Authenticated => match ev {
            SessionEventView::Frame(m) => match route(m) {
                RouteView::Reply(r) => EffectsView { reply: Some(r), ..nothing },
                RouteView::KeyEvent(k) => EffectsView { key_event: Some(k), ..nothing },
                RouteView::Ignore => nothing,
            },
            SessionEventView::Closed => EffectsView { release_keys: true, ..nothing },
            _ => nothing,
        },
        SessionPhase::Terminated => nothing,
    }
}

/// The client count after one event: up by one on a successful
/// authentication, down by one (stopping at zero) when an authenticated
/// session ends, untouched otherwise. A session that never authenticated
/// ends without ever having counted.
pub open spec fn next_count(c: u32, phase: SessionPhase, ev: SessionEventView, pin: Seq<char>) -> u32 {
    match phase {
        SessionPhase::AwaitingAuth => if ev matches SessionEventView::Frame(m) && is_good_auth(
            m,
            pin,
        ) {
            count_step(c, ClientEvent::Connected)
        } else {
            c
        },
        SessionPhase::Authenticated => if ev is Closed {
            count_step(c, ClientEvent::Disconnected)
        } else {
            c
        },
        SessionPhase::Terminated => c,
    }
}

/// One client connection, from accept to termination. Created when the
/// transport handshake completes, so it starts awaiting authentication.
pub struct Session {
    pub phase: SessionPhase,
}

impl Session {
    /// A session for a freshly accepted connection.
    pub fn new() -> (s: Self)
        ensures
            s.phase == SessionPhase::AwaitingAuth,
    {
        Session { phase: SessionPhase::AwaitingAuth }
    }

    /// Consumes one connection event: moves the session along its state
    /// machine, keeps the shared client count in step, and returns what the
    /// caller must perform. The listener's flags are never touched here.
    pub fn step(&mut self, event: SessionEvent, config: &Config, state: &mut ServerState) -> (eff:
        StepEffects)
        requires
            old(state).connected_clients < u32::MAX,
        ensures
            final(self).phase == next_phase(old(self).phase, event@, config@.pin),
            eff@ == step_effects(old(self).phase, event@, config@.pin),
            final(state).connected_clients == next_count(
                old(state).connected_clients,
                old(self).phase,
                event@,
                config@.pin,
            ),
            final(state).is_running == old(state).is_running,
            final(state).should_stop == old(state).should_stop,
    {
        let nothing = StepEffects { reply: None, key_event: None, release_keys: false };
        match self.phase {
            SessionPhase::AwaitingAuth => {
                match event {
                    SessionEvent::Frame(m) => {
                        if is_auth_frame(&m) {
                            if pin_matches(&m, config) {
                                self.phase = SessionPhase::Authenticated;
                                state.client_connected();
                                StepEffects { reply: Some(OutboundMessage::auth_success()), ..nothing }
                            } else {
                                self.phase = SessionPhase::Terminated;
                                StepEffects { reply: Some(OutboundMessage::auth_failed()), ..nothing }
                            }
                        } else {
                            self.phase = SessionPhase::Terminated;
                            nothing
                        }
                    },
                    _ => {
                        self.phase = SessionPhase::Terminated;
                        nothing
                    },
                }
            },
            SessionPhase::Authenticated => {
                match event {
                    SessionEvent::Frame(m) => {
                        match dispatch(&m) {
                            RouteDecision::Reply(r) => StepEffects { reply: Some(r), ..nothing },
                            RouteDecision::KeyEvent(k) => StepEffects {
                                key_event: Some(k),
                                ..nothing
                            },
                            RouteDecision::Ignore => nothing,
                        }
                    },
                    SessionEvent::Closed => {
                        self.phase = SessionPhase::Terminated;
                        state.client_disconnected();
                        StepEffects { release_keys: true, ..nothing }
                    },
                    _ => nothing,
                }
            },
            SessionPhase::Terminated => nothing,
        }
    }
}

/// Law: before a successful authentication nothing is ever routed. A
/// session still awaiting authentication causes no translator call and no
/// cleanup, and any event other than a good authentication frame — silence
/// until the window closes, a closed connection, a malformed or non-`auth`
/// frame, a wrong PIN — terminates the session with the client count
/// unchanged: a session that never authenticated is never counted.
pub proof fn lemma_no_routing_before_auth(ev: SessionEventView, pin: Seq<char>, c: u32)
    ensures
        step_effects(SessionPhase::AwaitingAuth, ev, pin).key_event is None,
        !step_effects(SessionPhase::AwaitingAuth, ev, pin).release_keys,
        !(ev matches SessionEventView::Frame(m) && is_good_auth(m, pin)) ==> {
            &&& next_phase(SessionPhase::AwaitingAuth, ev, pin) is Terminated
            &&& next_count(c, SessionPhase::AwaitingAuth, ev, pin) == c
        },
{
}

/// Law: in an authenticated session, a `ping` frame carrying timestamp `t`
/// yields exactly one reply, a `pong` echoing that same `t`, and nothing
/// else: no translator call, no cleanup, no phase change, no count change.
pub proof fn lemma_ping_round_trip(m: InboundView, pin: Seq<char>, c: u32)
    requires
        m.msg_type == "ping"@,
    ensures
        step_effects(SessionPhase::Authenticated, SessionEventView::Frame(m), pin) == (EffectsView {
            reply: Some(pong_view(m.t)),
            key_event: None,
            release_keys: false,
        }),
        next_phase(SessionPhase::Authenticated, SessionEventView::Frame(m), pin)
            is Authenticated,
        next_count(c, SessionPhase::Authenticated, SessionEventView::Frame(m), pin) == c,
{
}

/// Law: presses are not deduplicated. An authenticated session handed the
/// same fret press twice in a row issues the press to the translator both
/// times: the first step leaves it authenticated, and the step after that
/// yields the identical press again.
pub proof fn lemma_presses_not_deduplicated(m: InboundView, v: Seq<char>, pin: Seq<char>)
    requires
        m.msg_type == "fret"@,
        effective_value(m) == Some(v),
        is_fret_value(v),
        m.pressed == Some(true),
    ensures
        ({
            let ev = SessionEventView::Frame(m);
            let press = Some(ActionView { action: v, pressed: true });
            let phase1 = next_phase(SessionPhase::Authenticated, ev, pin);
            &&& step_effects(SessionPhase::Authenticated, ev, pin).key_event == press
            &&& phase1 is Authenticated
            &&& step_effects(phase1, ev, pin).key_event == press
        }),
{
    reveal_strlit("ping");
    reveal_strlit("fret");
    assert("ping"@[0] != "fret"@[0]);
    assert("ping"@ != "fret"@);
}

/// Whether the frame's type is `auth`.
fn is_auth_frame(m: &InboundMessage) -> (r: bool)
    ensures
        r == (m@.msg_type == "auth"@),
{
    str_eq(m.msg_type.as_str(), "auth")
}

/// Whether the frame carries exactly the server's PIN.
fn pin_matches(m: &InboundMessage, config: &Config) -> (r: bool)
    ensures
        r == (m@.pin == Some(config@.pin)),
{
    match &m.pin {
        Some(p) => str_eq(p.as_str(), config.pin.as_str()),
        None => false,
    }
}

} // verus!
