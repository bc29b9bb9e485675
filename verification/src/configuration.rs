//! Packet data records of the configuration state, in both directions.

use vstd::prelude::*;

use crate::types::{
    ChatMode, CustomReportDetail, DisplayedSkinParts, Identifier, JsonTextComponent, KnownPack,
    MainHand, ParticleStatus, RegistryEntry, RegistryTagData, ResourcePackResult, ServerLink,
    Uuid, VarInt,
};

verus! {

/// Server request for a stored cookie.
#[derive(Debug, PartialEq)]
pub struct CookieRequestConfiguration {
    pub key: Identifier,
}

/// Server-initiated plugin channel message.
#[derive(Debug, PartialEq)]
pub struct ClientboundPluginMessageConfiguration {
    pub channel: Identifier,
    pub data: Vec<u8>,
}

/// Server disconnect notice carrying a JSON reason.
#[derive(Debug, PartialEq)]
pub struct DisconnectConfiguration {
    pub reason: JsonTextComponent,
}

/// Server notice that configuration is complete.
#[derive(Debug, PartialEq)]
pub struct FinishConfiguration;

/// Server keep-alive probe.
#[derive(Debug, PartialEq)]
pub struct ClientboundKeepAliveConfiguration {
    pub keep_alive_id: i64,
}

/// Server ping carrying a transaction number.
#[derive(Debug, PartialEq)]
pub struct PingConfiguration {
    pub id: i32,
}

/// Server request to clear the client's chat history.
#[derive(Debug, PartialEq)]
pub struct ResetChat;

/// One registry's entries, sent during configuration.
#[derive(Debug, PartialEq)]
pub struct RegistryData {
    pub registry_id: Identifier,
    pub entries: Vec<RegistryEntry>,
}

/// Server request to drop one or all resource packs.
#[derive(Debug, PartialEq)]
pub struct RemoveResourcePackConfiguration {
    pub uuid: Option<Uuid>,
}

/// Server offer of a resource pack to download.
#[derive(Debug, PartialEq)]
pub struct AddResourcePackConfiguration {
    pub uuid: Uuid,
    pub url: String,
    pub hash: String,
    pub forced: bool,
    pub prompt_message: Option<JsonTextComponent>,
}

/// Server request to store a cookie on the client.
#[derive(Debug, PartialEq)]
pub struct StoreCookieConfiguration {
    pub key: Identifier,
    pub payload: Vec<u8>,
}

/// Server request that the client reconnect elsewhere.
#[derive(Debug, PartialEq)]
pub struct TransferConfiguration {
    pub host: String,
    pub port: VarInt,
}

/// The feature flags enabled on this server.
#[derive(Debug, PartialEq)]
pub struct FeatureFlags {
    pub feature_flags: Vec<Identifier>,
}

/// The registry tags of this server.
#[derive(Debug, PartialEq)]
pub struct UpdateTagsConfiguration {
    pub tags: Vec<RegistryTagData>,
}

/// The data packs the server knows.
#[derive(Debug, PartialEq)]
pub struct ClientboundKnownPacks {
    pub known_packs: Vec<KnownPack>,
}

/// Custom crash report lines the client should include.
#[derive(Debug, PartialEq)]
pub struct CustomReportDetailsConfiguration {
    pub details: Vec<CustomReportDetail>,
}

/// Links the client should display for this server.
#[derive(Debug, PartialEq)]
pub struct ServerLinksConfiguration {
    pub links: Vec<ServerLink>,
}

/// The client's display and chat settings.
#[derive(Debug, PartialEq)]
pub struct ClientInformationConfiguration {
    pub locale: String,
    pub view_distance: i8,
    pub chat_mode: ChatMode,
    pub chat_colors: bool,
    pub displayed_skin_parts: DisplayedSkinParts,
    pub main_hand: MainHand,
    pub enable_text_filtering: bool,
    pub allow_server_listings: bool,
    pub particle_status: ParticleStatus,
}

/// Client answer to a cookie request.
#[derive(Debug, PartialEq)]
pub struct CookieResponseConfiguration {
    pub key: Identifier,
    pub payload: Option<Vec<u8>>,
}

/// Client-initiated plugin channel message.
#[derive(Debug, PartialEq)]
pub struct ServerboundPluginMessageConfiguration {
    pub channel: Identifier,
    pub data: Vec<u8>,
}

/// Client acknowledgement that configuration is complete.
#[derive(Debug, PartialEq)]
pub struct AcknowledgeFinishConfiguration;

/// Client answer to a keep-alive probe.
#[derive(Debug, PartialEq)]
pub struct ServerboundKeepAliveConfiguration {
    pub keep_alive_id: i64,
}

/// Client answer to a ping.
#[derive(Debug, PartialEq)]
pub struct PongConfiguration {
    pub id: i32,
}

/// Client verdict on an offered resource pack.
#[derive(Debug, PartialEq)]
pub struct ResourcePackResponseConfiguration {
    pub uuid: Uuid,
    pub result: ResourcePackResult,
}

/// The data packs the client knows.
#[derive(Debug, PartialEq)]
pub struct ServerboundKnownPacks {
    pub known_packs: Vec<KnownPack>,
}

} // verus!
