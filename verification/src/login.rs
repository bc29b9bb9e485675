//! Packets of the login branch, in both directions.

use vstd::prelude::*;

use crate::types::{Identifier, JsonTextComponent, Uuid, VarInt};

verus! {

/// Server-to-client disconnect notice carrying a JSON reason.
#[derive(Debug, Clone)]
pub struct DisconnectLogin {
    pub reason: JsonTextComponent,
}

/// Server request to begin encryption negotiation.
#[derive(Debug, Clone)]
pub struct EncryptionRequest {
    pub server_id: String,
    pub public_key: Vec<u8>,
    pub verify_token: Vec<u8>,
    pub should_authenticate: bool,
}

/// Server confirmation that login succeeded, echoing the player identity.
#[derive(Debug, Clone)]
pub struct LoginSuccess {
    pub uuid: Uuid,
    pub username: String,
    pub properties: Vec<LoginProperty>,
    pub strict_error_handling: bool,
}

/// One signed property attached to a login success.
#[derive(Debug, Clone)]
pub struct LoginProperty {
    pub name: String,
    pub value: String,
    pub signature: Option<String>,
}

/// Server notice that packet compression starts above a size threshold.
#[derive(Debug, Clone)]
pub struct SetCompression {
    pub threshold: VarInt,
}

/// Server-initiated plugin channel message during login.
#[derive(Debug, Clone)]
pub struct LoginPluginRequest {
    pub message_id: VarInt,
    pub channel: String,
    pub data: Vec<u8>,
}

/// Server request for a stored cookie during login.
#[derive(Debug, PartialEq)]
pub struct CookieRequestLogin {
    pub key: Identifier,
}

/// The first packet of the login branch: the client names itself.
#[derive(Debug, Clone)]
pub struct LoginStart {
    pub name: String,
    pub player_uuid: Uuid,
}

/// Client answer to an encryption request.
#[derive(Debug, Clone)]
pub struct EncryptionResponse {
    pub shared_secret: Vec<u8>,
    pub verify_token: Vec<u8>,
}

/// Client answer to a plugin channel message.
#[derive(Debug, PartialEq)]
pub struct LoginPluginResponse {
    pub message_id: VarInt,
    pub data: Option<Vec<u8>>,
}

/// Client acknowledgement that login is complete.
#[derive(Debug, Clone)]
pub struct LoginAcknowledged;

/// Client answer to a cookie request.
#[derive(Debug, PartialEq)]
pub struct CookieResponseLogin {
    pub key: Identifier,
    pub payload: Option<Vec<u8>>,
}

} // verus!
