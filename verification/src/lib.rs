//! Channel primitives and control-plane rules of the game server.
//!
//! The crate holds the parts of the server that decide something: how a
//! secret is shown in diagnostics, in which order the sockets are bound and
//! what a failed bind leads to, and how a host process starts, queries and
//! stops an embedded server over a pair of channels.

pub mod control;
pub mod redact;
pub mod startup;
pub mod util;

pub use control::{ControlPlane, FfiChannelPair, FfiMessage};
pub use redact::censor_key;
pub use startup::StartupConfiguration;
