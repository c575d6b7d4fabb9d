//! Verified core of a local-network game-controller link: a host-side server
//! that authenticates companion devices over a persistent connection and
//! routes their protocol messages to synthetic key events.
//!
//! The modules here hold the logic that is proved: the shared server state,
//! the per-connection session state machine, the message router, and the
//! key-binding translator. Transport, JSON framing and the platform key
//! injection live outside the library and exchange plain values with it.

pub mod config;
pub mod keyboard;
pub mod protocol;
pub mod router;
pub mod session;
pub mod state;
mod text;

pub use config::{Config, ConfigView, KeyBinding};
pub use keyboard::{
    key_from_lowered, press_key, release_all, release_key, string_to_key, Key, KeyInjection,
};
pub use protocol::{InboundMessage, InboundView, OutboundMessage, OutboundView};
pub use router::{dispatch, ActionEvent, ActionView, RouteDecision, RouteView};
pub use session::{
    EffectsView, Session, SessionEvent, SessionEventView, SessionPhase, StepEffects,
    AUTH_WINDOW_SECS,
};
pub use state::{ClientEvent, ServerState, StartError, ACCEPT_POLL_MILLIS};
