//! Server-to-client packet data records of the play state.
//!
//! These are passive schemas consumed once a packet has been framed and
//! type-tagged; shapes whose payloads are floating-point measurements are
//! outside this crate's scope.

use vstd::prelude::*;

use std::collections::HashMap;

use crate::types::{
    Angle, ChatTypeData, ChunkData, ChunkSectionBlockUpdate, CustomReportDetail,
    EntityMetadata, EquipmentEntry, IdOr, Identifier, JsonTextComponent, LightData,
    MapColorPatch, MapIcon, Nbt, NumberFormat, PlayerInfoEntry, Position, RecipeBookEntry,
    RecipeDisplay, ServerLink, Slot, Statistic, SuggestionMatch, Uuid, VarInt,
};

verus! {

/// Marks the boundary of a packet bundle.
pub struct BundleDelimiter;

/// Plays a whole-body animation on an entity.
pub struct EntityAnimationPacket {
    pub entity_id: VarInt,
    pub animation: u8,
}

/// Delivers the statistics a client asked for.
pub struct AwardStatistics {
    pub statistics: Vec<Statistic>,
}

/// Acknowledges a client block change up to a sequence number.
pub struct AcknowledgeBlockChange {
    pub sequence_id: VarInt,
}

/// Sets the breaking progress overlay of a block.
pub struct SetBlockDestroyStage {
    pub entity_id: VarInt,
    pub location: Position,
    pub destroy_stage: u8,
}

/// Replaces the data of a block entity.
pub struct BlockEntityData {
    pub location: Position,
    pub block_entity_type: VarInt,
    pub nbt_data: Nbt,
}

/// Triggers a block action such as opening a chest lid.
pub struct BlockAction {
    pub location: Position,
    pub action_id: u8,
    pub action_param: u8,
    pub block_type: VarInt,
}

/// Replaces one block state.
pub struct BlockUpdate {
    pub location: Position,
    pub block_id: VarInt,
}

/// Changes the world difficulty.
pub struct ChangeDifficulty {
    pub difficulty: u8,
    pub difficulty_locked: bool,
}

/// Ends a chunk batch, reporting its size.
pub struct ChunkBatchFinished {
    pub batch_size: VarInt,
}

/// Starts a chunk batch.
pub struct ChunkBatchStart;

/// Replaces biome data of several chunks.
pub struct ChunkBiomes {
    pub chunk_biome_data: Vec<u8>,
}

/// Clears the title display.
pub struct ClearTitles {
    pub reset: bool,
}

/// Answers a command completion request.
pub struct CommandSuggestionsResponse {
    pub id: VarInt,
    pub start: VarInt,
    pub length: VarInt,
    pub matches: Vec<SuggestionMatch>,
}

/// Delivers the command tree.
pub struct Commands {
    pub nodes: Vec<u8>,
    pub root_index: VarInt,
}

/// Closes an open container window.
pub struct CloseContainer {
    pub window_id: VarInt,
}

/// Replaces the whole contents of a container window.
pub struct SetContainerContent {
    pub window_id: VarInt,
    pub state_id: VarInt,
    pub slot_data: Vec<Slot>,
    pub carried_item: Slot,
}

/// Sets one numeric property of a container window.
pub struct SetContainerProperty {
    pub window_id: VarInt,
    pub property: i16,
    pub value: i16,
}

/// Replaces one slot of a container window.
pub struct SetContainerSlot {
    pub window_id: i8,
    pub state_id: VarInt,
    pub slot: i16,
    pub slot_data: Slot,
}

/// Requests a stored cookie during play.
pub struct CookieRequestPlay {
    pub key: Identifier,
}

/// Starts an item cooldown.
pub struct SetCooldown {
    pub item_id: VarInt,
    pub cooldown_ticks: VarInt,
}

/// Updates the custom chat completion list.
pub struct ChatSuggestions {
    pub action: VarInt,
    pub entries: Vec<String>,
}

/// Server-initiated plugin channel message during play.
pub struct ClientboundPluginMessagePlay {
    pub channel: Identifier,
    pub data: Vec<u8>,
}

/// Delivers a requested debug sample.
pub struct DebugSample {
    pub sample: Vec<i64>,
    pub sample_type: VarInt,
}

/// Deletes a previously delivered chat message.
pub struct DeleteMessage {
    pub message_id: VarInt,
    pub signature: Option<Vec<u8>>,
}

/// Disconnects the client with a JSON reason.
pub struct DisconnectPlay {
    pub reason: JsonTextComponent,
}

/// Delivers a chat message outside the signing chain.
pub struct DisguisedChatMessage {
    pub message: JsonTextComponent,
    pub chat_type: IdOr<ChatTypeData>,
    pub sender_name: JsonTextComponent,
    pub target_name: Option<JsonTextComponent>,
}

/// Triggers an entity status event.
pub struct EntityEvent {
    pub entity_id: i32,
    pub entity_status: i8,
}

/// Unloads a chunk on the client.
pub struct UnloadChunk {
    pub chunk_x: i32,
    pub chunk_z: i32,
}

/// Opens the horse inventory screen.
pub struct OpenHorseScreen {
    pub window_id: VarInt,
    pub inventory_columns_count: VarInt,
    pub entity_id: i32,
}

/// Answers a keep-alive probe during play.
pub struct ClientboundKeepAlivePlay {
    pub keep_alive_id: i64,
}

/// Delivers a chunk together with its lighting.
pub struct ChunkDataAndUpdateLight {
    pub chunk_x: i32,
    pub chunk_z: i32,
    pub chunk_data: ChunkData,
    pub light_data: LightData,
}

/// Triggers a world event such as a sound or particle effect.
pub struct WorldEvent {
    pub event: i32,
    pub location: Position,
    pub data: i32,
    pub disable_relative_volume: bool,
}

/// Replaces lighting data of a chunk.
pub struct UpdateLight {
    pub chunk_x: VarInt,
    pub chunk_z: VarInt,
    pub light_data: LightData,
}

/// Starts the play state for a newly joined player.
pub struct LoginPlay {
    pub entity_id: i32,
    pub is_hardcore: bool,
    pub dimension_names: Vec<Identifier>,
    pub max_players: VarInt,
    pub view_distance: VarInt,
    pub simulation_distance: VarInt,
    pub reduced_debug_info: bool,
    pub enable_respawn_screen: bool,
    pub do_limited_crafting: bool,
    pub dimension_type: VarInt,
    pub dimension_name: Identifier,
    pub hashed_seed: i64,
    pub game_mode: u8,
    pub previous_game_mode: i8,
    pub is_debug: bool,
    pub is_flat: bool,
    pub death_location: Option<(Identifier, Position)>,
    pub portal_cooldown: VarInt,
    pub sea_level: VarInt,
    pub enforces_secure_chat: bool,
}

/// Replaces the contents of a map item.
pub struct MapData {
    pub map_id: VarInt,
    pub scale: i8,
    pub locked: bool,
    pub icons: Option<Vec<MapIcon>>,
    pub color_patch: Option<MapColorPatch>,
}

/// Moves an entity by a small delta.
pub struct UpdateEntityPosition {
    pub entity_id: VarInt,
    pub delta_x: i16,
    pub delta_y: i16,
    pub delta_z: i16,
    pub on_ground: bool,
}

/// Moves and rotates an entity by a small delta.
pub struct UpdateEntityPositionAndRotation {
    pub entity_id: VarInt,
    pub delta_x: i16,
    pub delta_y: i16,
    pub delta_z: i16,
    pub yaw: Angle,
    pub pitch: Angle,
    pub on_ground: bool,
}

/// Rotates an entity in place.
pub struct UpdateEntityRotation {
    pub entity_id: VarInt,
    pub yaw: Angle,
    pub pitch: Angle,
    pub on_ground: bool,
}

/// Opens the written book screen.
pub struct OpenBook {
    pub hand: VarInt,
}

/// Opens a container window.
pub struct OpenScreen {
    pub window_id: VarInt,
    pub window_type: VarInt,
    pub window_title: JsonTextComponent,
}

/// Opens the sign editing screen.
pub struct OpenSignEditor {
    pub location: Position,
    pub is_front_text: bool,
}

/// Server ping the client must answer with a matching pong.
pub struct PingPlay {
    pub id: i32,
}

/// Answers a play-state ping request.
pub struct PingResponsePlay {
    pub payload: i64,
}

/// Shows a recipe as a ghost in the crafting grid.
pub struct PlaceGhostRecipe {
    pub window_id: VarInt,
    pub recipe_display: RecipeDisplay,
}

/// Delivers a signed player chat message.
pub struct PlayerChatMessage {
    pub global_index: VarInt,
    pub sender: Uuid,
    pub index: VarInt,
    pub message_signature: Option<Vec<u8>>,
    pub message: String,
    pub timestamp: i64,
    pub salt: i64,
    pub previous_messages: Vec<u8>,
    pub unsigned_content: Option<JsonTextComponent>,
    pub filter_type: VarInt,
    pub filter_type_bits: Option<Vec<u8>>,
    pub chat_type: IdOr<ChatTypeData>,
    pub sender_name: JsonTextComponent,
    pub target_name: Option<JsonTextComponent>,
}

/// Ends the combat timer.
pub struct EndCombat {
    pub duration: VarInt,
}

/// Starts the combat timer.
pub struct EnterCombat;

/// Announces the player's death.
pub struct CombatDeath {
    pub player_id: VarInt,
    pub message: JsonTextComponent,
}

/// Removes players from the player list.
pub struct PlayerInfoRemove {
    pub uuids: Vec<Uuid>,
}

/// Updates entries of the player list.
pub struct PlayerInfoUpdate {
    pub actions: u8,
    pub players: Vec<PlayerInfoEntry>,
}

/// Adds recipes to the recipe book.
pub struct RecipeBookAdd {
    pub recipes: Vec<RecipeBookEntry>,
    pub replace: bool,
}

/// Removes recipes from the recipe book.
pub struct RecipeBookRemove {
    pub recipes: Vec<VarInt>,
}

/// Replaces the recipe book display settings.
pub struct RecipeBookSettings {
    pub crafting_open: bool,
    pub crafting_filter: bool,
    pub smelting_open: bool,
    pub smelting_filter: bool,
    pub blast_furnace_open: bool,
    pub blast_furnace_filter: bool,
    pub smoker_open: bool,
    pub smoker_filter: bool,
}

/// Removes entities from the world.
pub struct RemoveEntities {
    pub entity_ids: Vec<VarInt>,
}

/// Removes one status effect from an entity.
pub struct RemoveEntityEffect {
    pub entity_id: VarInt,
    pub effect_id: VarInt,
}

/// Resets a score entry on an objective.
pub struct ResetScore {
    pub entity_name: String,
    pub objective_name: Option<String>,
}

/// Drops one or all resource packs during play.
pub struct RemoveResourcePackPlay {
    pub uuid: Option<Uuid>,
}

/// Offers a resource pack during play.
pub struct AddResourcePackPlay {
    pub uuid: Uuid,
    pub url: String,
    pub hash: String,
    pub forced: bool,
    pub prompt_message: Option<JsonTextComponent>,
}

/// Respawns the player into a dimension.
pub struct Respawn {
    pub dimension_type: VarInt,
    pub dimension_name: Identifier,
    pub hashed_seed: i64,
    pub game_mode: u8,
    pub previous_game_mode: i8,
    pub is_debug: bool,
    pub is_flat: bool,
    pub death_location: Option<(Identifier, Position)>,
    pub portal_cooldown: VarInt,
    pub sea_level: VarInt,
    pub data_kept: u8,
}

/// Rotates an entity's head.
pub struct SetHeadRotation {
    pub entity_id: VarInt,
    pub head_yaw: Angle,
}

/// Replaces several blocks of one chunk section.
pub struct UpdateSectionBlocks {
    pub chunk_section_position: i64,
    pub blocks: Vec<ChunkSectionBlockUpdate>,
}

/// Switches the advancements screen to a tab.
pub struct SelectAdvancementsTab {
    pub identifier: Option<Identifier>,
}

/// Delivers the server's message of the day and icon.
pub struct ServerData {
    pub motd: JsonTextComponent,
    pub icon: Option<Vec<u8>>,
}

/// Replaces the action bar text.
pub struct SetActionBarText {
    pub action_bar_text: JsonTextComponent,
}

/// Delays the world border warning.
pub struct SetBorderWarningDelay {
    pub warning_time: VarInt,
}

/// Sets the world border warning distance.
pub struct SetBorderWarningDistance {
    pub warning_blocks: VarInt,
}

/// Attaches the camera to an entity.
pub struct SetCamera {
    pub camera_id: VarInt,
}

/// Recenters chunk loading around a chunk.
pub struct SetCenterChunk {
    pub chunk_x: VarInt,
    pub chunk_z: VarInt,
}

/// Sets the render distance.
pub struct SetRenderDistance {
    pub view_distance: VarInt,
}

/// Replaces the item carried by the cursor.
pub struct SetCursorItem {
    pub carried_item: Slot,
}

/// Shows an objective in a display slot.
pub struct DisplayObjective {
    pub position: VarInt,
    pub score_name: String,
}

/// Replaces the metadata of an entity.
pub struct SetEntityMetadata {
    pub entity_id: VarInt,
    pub metadata: EntityMetadata,
}

/// Leashes one entity to another.
pub struct LinkEntities {
    pub attached_entity_id: i32,
    pub holding_entity_id: i32,
}

/// Sets an entity's velocity.
pub struct SetEntityVelocity {
    pub entity_id: VarInt,
    pub velocity_x: i16,
    pub velocity_y: i16,
    pub velocity_z: i16,
}

/// Replaces the equipment of an entity.
pub struct SetEquipment {
    pub entity_id: VarInt,
    pub equipment: Vec<EquipmentEntry>,
}

/// Selects the held hotbar slot.
pub struct SetHeldItem {
    pub slot: VarInt,
}

/// Creates, removes or updates a scoreboard objective.
pub struct UpdateObjectives {
    pub objective_name: String,
    pub mode: u8,
    pub objective_value: Option<JsonTextComponent>,
    pub objective_type: Option<VarInt>,
    pub number_format: Option<NumberFormat>,
}

/// Seats passengers on a vehicle entity.
pub struct SetPassengers {
    pub entity_id: VarInt,
    pub passengers: Vec<VarInt>,
}

/// Replaces one slot of the player inventory.
pub struct SetPlayerInventorySlot {
    pub slot: VarInt,
    pub slot_data: Slot,
}

/// Creates, removes or updates a team.
pub enum UpdateTeams {
    Create {
        team_name: String,
        display_name: JsonTextComponent,
        friendly_flags: u8,
        name_tag_visibility: String,
        collision_rule: String,
        team_color: VarInt,
        team_prefix: JsonTextComponent,
        team_suffix: JsonTextComponent,
        entities: Vec<String>,
    },
    Remove {
        team_name: String,
    },
    UpdateInfo {
        team_name: String,
        display_name: JsonTextComponent,
        friendly_flags: u8,
        name_tag_visibility: String,
        collision_rule: String,
        team_color: VarInt,
        team_prefix: JsonTextComponent,
        team_suffix: JsonTextComponent,
    },
    AddEntities {
        team_name: String,
        entities: Vec<String>,
    },
    RemoveEntities {
        team_name: String,
        entities: Vec<String>,
    },
}

/// Sets a score entry on an objective.
pub struct UpdateScore {
    pub entity_name: String,
    pub objective_name: String,
    pub value: VarInt,
    pub display_name: Option<JsonTextComponent>,
    pub number_format: Option<NumberFormat>,
}

/// Sets the simulation distance.
pub struct SetSimulationDistance {
    pub simulation_distance: VarInt,
}

/// Replaces the subtitle text.
pub struct SetSubtitleText {
    pub subtitle_text: JsonTextComponent,
}

/// Synchronizes the world clock.
pub struct UpdateTime {
    pub world_age: i64,
    pub time_of_day: i64,
    pub time_of_day_increasing: bool,
}

/// Replaces the title text.
pub struct SetTitleText {
    pub title_text: JsonTextComponent,
}

/// Sets the fade timing of the title display.
pub struct SetTitleAnimationTimes {
    pub fade_in: i32,
    pub stay: i32,
    pub fade_out: i32,
}

/// Switches the connection to the configuration state.
pub struct StartConfiguration;

/// Stops sounds by source or name.
pub struct StopSound {
    pub flags: u8,
    pub source: Option<VarInt>,
    pub sound: Option<Identifier>,
}

/// Stores a cookie on the client during play.
pub struct StoreCookiePlay {
    pub key: Identifier,
    pub payload: Vec<u8>,
}

/// Delivers a system chat message.
pub struct SystemChatMessage {
    pub content: JsonTextComponent,
    pub overlay: bool,
}

/// Replaces the player list header and footer.
pub struct SetTabListHeaderAndFooter {
    pub header: JsonTextComponent,
    pub footer: JsonTextComponent,
}

/// Answers a block entity tag query.
pub struct TagQueryResponse {
    pub transaction_id: VarInt,
    pub nbt: Nbt,
}

/// Animates an item pickup.
pub struct PickupItem {
    pub collected_entity_id: VarInt,
    pub collector_entity_id: VarInt,
    pub pickup_item_count: VarInt,
}

/// Steps the frozen tick loop forward.
pub struct StepTick {
    pub tick_steps: VarInt,
}

/// Asks the client to reconnect to another host during play.
pub struct TransferPlay {
    pub host: String,
    pub port: VarInt,
}

/// Adds or removes one status effect on an entity.
pub struct EntityEffect {
    pub entity_id: VarInt,
    pub effect_id: VarInt,
    pub amplifier: VarInt,
    pub duration: VarInt,
    pub flags: u8,
}

/// Replaces the recipe property sets.
pub struct UpdateRecipes {
    pub property_sets: Vec<u8>,
    pub stonecutter_recipes: Vec<u8>,
}

/// Replaces the registry tags during play.
pub struct UpdateTagsPlay {
    pub tags: HashMap<Identifier, Vec<u8>>,
}

/// Custom crash report lines the client should include, sent during play.
pub struct CustomReportDetailsPlay {
    pub details: Vec<CustomReportDetail>,
}

/// Links the client should display, sent during play.
pub struct ServerLinksPlay {
    pub links: Vec<ServerLink>,
}

} // verus!
