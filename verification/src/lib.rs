//! Client-side session core for a binary voice-chat control protocol.
//!
//! The crate turns typed inbound control packets into domain events and a
//! consistent local mirror of server state (channels, users, session
//! identity), and turns user intents (join a channel) into outbound
//! commands. Byte-level encoding and transport security live outside this
//! crate, behind the connector and session capabilities defined here.

pub mod config;
pub mod control;
pub mod errors;
pub mod events;
pub mod state;
pub mod transport;
pub mod types;
