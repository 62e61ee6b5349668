//! Client-side session engine for one MQTT broker connection: address
//! resolution, the pending-operation table, command processing, inbound
//! dispatch and the session lifecycle, each stated over plain values and
//! verified; with it, the consumer's picture of a session as its events
//! report it, and the list of open sessions.

pub mod codec;
pub mod formatting;
pub mod guarantees;
pub mod handshake;
pub mod ipc;
pub mod login;
pub mod pending;
pub mod registry;
pub mod session;
pub mod tabs;
pub mod text;
