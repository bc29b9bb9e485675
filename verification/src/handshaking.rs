//! Packets a client sends while a connection is still in the handshaking
//! state.

use vstd::prelude::*;

use crate::types::VarInt;

verus! {

/// The single first packet of every connection: it selects the protocol
/// state the client wants to enter next.
#[derive(Debug, Clone)]
pub struct Handshake {
    pub protocol_version: VarInt,
    pub server_address: String,
    pub server_port: u16,
    pub next_state: VarInt,
}

/// The pre-modern server list ping, identified by its single payload byte.
#[derive(Debug, PartialEq)]
pub struct LegacyServerListPing {
    pub payload: u8,
}

} // verus!
