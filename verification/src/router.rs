//! The input router: a stateless per-message dispatcher. Each inbound frame
//! is classified by its `type` and becomes at most one thing: a reply frame,
//! or one press/release of a symbolic action name for the translator.
//! Unknown or incomplete frames are dropped without effect.

use vstd::prelude::*;
use vstd::string::StringExecFns;

use crate::text::str_eq;
use crate::protocol::{pong_view, InboundMessage, InboundView, OutboundMessage, OutboundView};

verus! {

/// One press or release of a symbolic action name, for the translator.
pub struct ActionEvent {
    pub action: String,
    pub pressed: bool,
}

/// The mathematical shape of an action event.
pub struct ActionView {
    pub action: Seq<char>,
    pub pressed: bool,
}

impl View for ActionEvent {
    type V = ActionView;

    open spec fn view(&self) -> ActionView {
        ActionView { action: self.action@, pressed: self.pressed }
    }
}

/// What the router decides for one frame.
pub enum RouteDecision {
    /// Send this frame back to the client.
    Reply(OutboundMessage),
    /// Hand this press or release to the translator.
    KeyEvent(ActionEvent),
    /// Drop the frame: unknown type, or a payload the rules reject.
    Ignore,
}

/// The mathematical shape of a routing decision.
pub enum RouteView {
    Reply(OutboundView),
    KeyEvent(ActionView),
    Ignore,
}

impl View for RouteDecision {
    type V = RouteView;

    open spec fn view(&self) -> RouteView {
        match self {
            RouteDecision::Reply(m) => RouteView::Reply(m@),
            RouteDecision::KeyEvent(ev) => RouteView::KeyEvent(ev@),
            RouteDecision::Ignore => RouteView::Ignore,
        }
    }
}

/// The effective payload of a frame: `value` when present, else `key`, else
/// `direction`. The three fields are aliases with this fixed precedence.
pub open spec fn effective_value(m: InboundView) -> Option<Seq<char>> {
    if m.value is Some {
        m.value
    } else if m.key is Some {
        m.key
    } else {
        m.direction
    }
}

/// Whether a frame asks for a press (absent means release).
pub open spec fn effective_pressed(m: InboundView) -> bool {
    m.pressed == Some(true)
}

/// The five fret action names: the only payloads a `fret` frame may carry.
pub open spec fn is_fret_value(v: Seq<char>) -> bool {
    v == "green"@ || v == "red"@ || v == "yellow"@ || v == "blue"@ || v == "orange"@
}

/// The message types that are themselves the action name: the action
/// buttons and the navigation directions.
pub open spec fn is_direct_action(t: Seq<char>) -> bool {
    ||| t == "starpower"@
    ||| t == "whammy"@
    ||| t == "start"@
    ||| t == "select"@
    ||| t == "left"@
    ||| t == "right"@
    ||| t == "up"@
    ||| t == "down"@
}

/// The routing rule, by message type:
/// `ping` echoes the client's timestamp in a `pong`; `fret` presses its
/// payload if it names a fret; `strum` and `drum` press the payload behind
/// their prefix, with no whitelist (an unbound name is the translator's
/// non-fatal lookup miss); the action buttons and navigation types press
/// their own name; anything else is dropped.
pub open spec fn route(m: InboundView) -> RouteView {
    let pressed = effective_pressed(m);
    if m.msg_type == "ping"@ {
        RouteView::Reply(pong_view(m.t))
    } else if m.msg_type == "fret"@ {
        match effective_value(m) {
            Some(v) => if is_fret_value(v) {
                RouteView::KeyEvent(ActionView { action: v, pressed })
            } else {
                RouteView::Ignore
            },
            None => RouteView::Ignore,
        }
    } else if m.msg_type == "strum"@ {
        match effective_value(m) {
            Some(v) => RouteView::KeyEvent(ActionView { action: "strum_"@ + v, pressed }),
            None => RouteView::Ignore,
        }
    } else if m.msg_type == "drum"@ {
        match effective_value(m) {
            Some(v) => RouteView::KeyEvent(ActionView { action: "drum_"@ + v, pressed }),
            None => RouteView::Ignore,
        }
    } else if is_direct_action(m.msg_type) {
        RouteView::KeyEvent(ActionView { action: m.msg_type, pressed })
    } else {
        RouteView::Ignore
    }
}

/// The effective payload, borrowed from the frame.
fn effective(m: &InboundMessage) -> (r: Option<&String>)
    ensures
        r.deep_view() == effective_value(m@),
{
    match &m.value {
        Some(v) => Some(v),
        None => match &m.key {
            Some(k) => Some(k),
            None => match &m.direction {
                Some(d) => Some(d),
                None => None,
            },
        },
    }
}

/// Whether `v` names one of the five frets.
fn is_fret(v: &str) -> (r: bool)
    ensures
        r == is_fret_value(v@),
{
    str_eq(v, "green") || str_eq(v, "red") || str_eq(v, "yellow") || str_eq(v, "blue") || str_eq(
        v,
        "orange",
    )
}

/// One action name prefixed, as `strum` and `drum` build theirs.
fn prefixed(prefix: &str, v: &str) -> (r: String)
    ensures
        r@ == prefix@ + v@,
{
    let s = prefix.to_owned();
    s.concat(v)
}

/// Classifies one inbound frame: the exec side of [`route`]. Never fails;
/// whatever the frame holds, the worst outcome is that it is ignored.
pub fn dispatch(m: &InboundMessage) -> (d: RouteDecision)
    ensures
        d@ == route(m@),
{
    let pressed = match m.pressed {
        Some(p) => p,
        None => false,
    };
    if str_eq(m.msg_type.as_str(), "ping") {
        RouteDecision::Reply(OutboundMessage::pong(m.t))
    } else if str_eq(m.msg_type.as_str(), "fret") {
        match effective(m) {
            Some(v) => {
                if is_fret(v.as_str()) {
                    RouteDecision::KeyEvent(ActionEvent { action: v.clone(), pressed })
                } else {
                    RouteDecision::Ignore
                }
            },
            None => RouteDecision::Ignore,
        }
    } else if str_eq(m.msg_type.as_str(), "strum") {
        match effective(m) {
            Some(v) => RouteDecision::KeyEvent(
                ActionEvent { action: prefixed("strum_", v.as_str()), pressed },
            ),
            None => RouteDecision::Ignore,
        }
    } else if str_eq(m.msg_type.as_str(), "drum") {
        match effective(m) {
            Some(v) => RouteDecision::KeyEvent(
                ActionEvent { action: prefixed("drum_", v.as_str()), pressed },
            ),
            None => RouteDecision::Ignore,
        }
    } else if str_eq(m.msg_type.as_str(), "starpower") || str_eq(m.msg_type.as_str(), "whammy")
        || str_eq(m.msg_type.as_str(), "start") || str_eq(m.msg_type.as_str(), "select") || str_eq(
        m.msg_type.as_str(),
        "left",
    ) || str_eq(m.msg_type.as_str(), "right") || str_eq(m.msg_type.as_str(), "up") || str_eq(
        m.msg_type.as_str(),
        "down",
    ) {
        RouteDecision::KeyEvent(ActionEvent { action: m.msg_type.clone(), pressed })
    } else {
        RouteDecision::Ignore
    }
}

/// Law: a frame whose type is none of the protocol's message types is a
/// complete no-op, and a `fret` frame whose payload is not one of the five
/// fret names causes neither a reply nor a translator call.
pub proof fn lemma_unrecognized_is_ignored(m: InboundView)
    ensures
        m.msg_type != "ping"@ && m.msg_type != "fret"@ && m.msg_type != "strum"@ && m.msg_type
            != "drum"@ && !is_direct_action(m.msg_type) ==> route(m) is Ignore,
        m.msg_type == "fret"@ && !(effective_value(m) matches Some(v) && is_fret_value(v))
            ==> route(m) is Ignore,
{
    reveal_strlit("ping");
    reveal_strlit("fret");
    assert("ping"@[0] != "fret"@[0]);
    assert("ping"@ != "fret"@);
}

} // verus!
