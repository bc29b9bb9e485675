//! Wire codec and connection-establishment state machine for a binary,
//! length-prefixed, stateful network protocol.
//!
//! The crate provides the variable-length integer codec, the primitive field
//! codec (strings, booleans, fixed-width integers, identifiers, byte arrays),
//! the packet frame codec, the protocol negotiation state machine, and the
//! packet data records grouped by protocol state.

pub mod types;

pub mod encoding;

pub mod handshaking;

pub mod status;

pub mod login;

pub mod configuration;

pub mod play;

pub mod server;
