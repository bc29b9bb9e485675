//! Packets of the status branch: the server list query and the ping/pong
//! exchange.

use vstd::prelude::*;

verus! {

/// Client request for the server's status document. Carries no payload.
#[derive(Debug, PartialEq)]
pub struct StatusRequest {}

/// Client ping carrying an opaque payload the server must echo exactly.
#[derive(Debug, PartialEq)]
pub struct PingRequest {
    pub payload: i64,
}

/// Server reply to a status request: a single JSON-formatted string.
#[derive(Debug, PartialEq)]
pub struct StatusResponse {
    pub json_response: String,
}

/// Server echo of a ping request; its payload must equal the ping's.
#[derive(Debug, PartialEq)]
pub struct PongResponse {
    pub payload: i64,
}

} // verus!
