//! Wire-level message shapes. One inbound value per received frame, one
//! outbound value per reply; neither outlives a single dispatch. The
//! surrounding application decodes JSON frames into these plain values and
//! encodes replies back out of them.

use vstd::prelude::*;

verus! {

/// A decoded client frame. `msg_type` selects the routing rule; the three
/// payload aliases `value`, `key` and `direction` are collapsed into one
/// effective payload, in that order of precedence, before routing.
pub struct InboundMessage {
    pub msg_type: String,
    pub value: Option<String>,
    pub key: Option<String>,
    pub direction: Option<String>,
    pub pressed: Option<bool>,
    pub pin: Option<String>,
    pub t: Option<i64>,
}

/// The mathematical shape of an inbound frame: every string as its
/// character sequence.
pub struct InboundView {
    pub msg_type: Seq<char>,
    pub value: Option<Seq<char>>,
    pub key: Option<Seq<char>>,
    pub direction: Option<Seq<char>>,
    pub pressed: Option<bool>,
    pub pin: Option<Seq<char>>,
    pub t: Option<i64>,
}

impl View for InboundMessage {
    type V = InboundView;

    open spec fn view(&self) -> InboundView {
        InboundView {
            msg_type: self.msg_type@,
            value: self.value.deep_view(),
            key: self.key.deep_view(),
            direction: self.direction.deep_view(),
            pressed: self.pressed,
            pin: self.pin.deep_view(),
            t: self.t,
        }
    }
}

/// A server reply frame.
pub struct OutboundMessage {
    pub msg_type: String,
    pub message: Option<String>,
    pub t: Option<i64>,
}

/// The mathematical shape of a reply frame.
pub struct OutboundView {
    pub msg_type: Seq<char>,
    pub message: Option<Seq<char>>,
    pub t: Option<i64>,
}

impl View for OutboundMessage {
    type V = OutboundView;

    open spec fn view(&self) -> OutboundView {
        OutboundView {
            msg_type: self.msg_type@,
            message: self.message.deep_view(),
            t: self.t,
        }
    }
}

/// The reply to a `ping` carrying timestamp `t`: a `pong` that echoes `t`.
pub open spec fn pong_view(t: Option<i64>) -> OutboundView {
    OutboundView { msg_type: "pong"@, message: None, t }
}

/// The reply to a correct PIN.
pub open spec fn auth_success_view() -> OutboundView {
    OutboundView { msg_type: "auth_success"@, message: None, t: None }
}

/// The reply to a present but wrong PIN.
pub open spec fn auth_failed_view() -> OutboundView {
    OutboundView { msg_type: "auth_failed"@, message: Some("Invalid PIN"@), t: None }
}

impl OutboundMessage {
    /// The `pong` reply echoing the client's timestamp.
    pub fn pong(t: Option<i64>) -> (m: Self)
        ensures
            m@ == pong_view(t),
    {
        OutboundMessage { msg_type: "pong".to_owned(), message: None, t }
    }

    /// The `auth_success` reply.
    pub fn auth_success() -> (m: Self)
        ensures
            m@ == auth_success_view(),
    {
        OutboundMessage { msg_type: "auth_success".to_owned(), message: None, t: None }
    }

    /// The `auth_failed` reply with its human-readable reason.
    pub fn auth_failed() -> (m: Self)
        ensures
            m@ == auth_failed_view(),
    {
        OutboundMessage {
            msg_type: "auth_failed".to_owned(),
            message: Some("Invalid PIN".to_owned()),
            t: None,
        }
    }
}

} // verus!
