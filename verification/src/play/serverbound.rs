//! Client-to-server packet data records of the play state.
//!
//! These are passive schemas consumed once a packet has been framed and
//! type-tagged; shapes whose payloads are floating-point measurements are
//! outside this crate's scope.

use vstd::prelude::*;

use crate::types::{HashedSlot, Identifier, JsonTextComponent, Position, Slot, Uuid, VarInt};

verus! {

/// Confirms a server-initiated teleport.
pub struct ConfirmTeleportation {
    pub teleport_id: VarInt,
}

/// Asks for the tag data of a block entity.
pub struct QueryBlockEntityTag {
    pub transaction_id: VarInt,
    pub location: Position,
}

/// Selects an item inside a bundle.
pub struct BundleItemSelected {
    pub slot_of_bundle: VarInt,
    pub slot_in_bundle: VarInt,
}

/// Asks the server to change the world difficulty.
pub struct ChangeDifficulty {
    pub new_difficulty: u8,
}

/// Acknowledges received chat messages up to a count.
pub struct AcknowledgeMessage {
    pub message_count: VarInt,
}

/// Runs an unsigned chat command.
pub struct ChatCommand {
    pub command: String,
}

/// Runs a chat command with signed arguments.
pub struct SignedChatCommand {
    pub command: String,
    pub timestamp: i64,
    pub salt: i64,
    pub argument_signatures: Vec<SignedArgument>,
    pub message_count: VarInt,
    pub acknowledged: Vec<u8>,
    pub checksum: u8,
}

/// The signature of one command argument.
pub struct SignedArgument {
    pub argument_name: String,
    pub signature: Vec<u8>,
}

/// Sends a chat message.
pub struct ChatMessage {
    pub message: String,
    pub timestamp: i64,
    pub salt: i64,
    pub signature: Option<Vec<u8>>,
    pub message_count: VarInt,
    pub acknowledged: Vec<u8>,
    pub checksum: u8,
}

/// Announces the client's chat signing session.
pub struct PlayerSession {
    pub session_id: Uuid,
    pub expires_at: i64,
    pub public_key: Vec<u8>,
    pub key_signature: Vec<u8>,
}

/// Asks the server to perform a client status action.
pub struct ClientStatus {
    pub action_id: VarInt,
}

/// Marks the end of the client's tick.
pub struct ClientTickEnd;

/// The client's display and chat settings, sent during play.
pub struct ClientInformation {
    pub locale: String,
    pub view_distance: i8,
    pub chat_mode: VarInt,
    pub chat_colors: bool,
    pub displayed_skin_parts: u8,
    pub main_hand: VarInt,
    pub enable_text_filtering: bool,
    pub allow_server_listings: bool,
    pub particle_status: VarInt,
}

/// Asks for completions of a command being typed.
pub struct CommandSuggestionsRequest {
    pub transaction_id: VarInt,
    pub text: String,
}

/// Acknowledges the switch to the configuration state.
pub struct AcknowledgeConfiguration;

/// Clicks a button of a container window.
pub struct ClickContainerButton {
    pub window_id: VarInt,
    pub button_id: VarInt,
}

/// Clicks a slot of a container window.
pub struct ClickContainer {
    pub window_id: VarInt,
    pub state_id: VarInt,
    pub slot: i16,
    pub button: i8,
    pub mode: VarInt,
    pub changed_slots: Vec<ChangedSlot>,
    pub carried_item: HashedSlot,
}

/// One slot changed by a container click.
pub struct ChangedSlot {
    pub slot_number: i16,
    pub slot_data: HashedSlot,
}

/// Closes a container window.
pub struct CloseContainer {
    pub window_id: VarInt,
}

/// Toggles a stateful container slot.
pub struct ChangeContainerSlotState {
    pub slot_id: VarInt,
    pub window_id: VarInt,
    pub state: bool,
}

/// Answers a cookie request during play.
pub struct CookieResponse {
    pub key: Identifier,
    pub payload: Option<Vec<u8>>,
}

/// Client-initiated plugin channel message during play.
pub struct ServerboundPluginMessage {
    pub channel: Identifier,
    pub data: Vec<u8>,
}

/// Subscribes to a debug sample stream.
pub struct DebugSampleSubscription {
    pub sample_type: VarInt,
}

/// Saves edits to a writable book.
pub struct EditBook {
    pub slot: VarInt,
    pub entries: Vec<String>,
    pub title: Option<String>,
}

/// Asks for the tag data of an entity.
pub struct QueryEntityTag {
    pub transaction_id: VarInt,
    pub entity_id: VarInt,
}

/// Generates a jigsaw structure.
pub struct JigsawGenerate {
    pub location: Position,
    pub levels: VarInt,
    pub keep_jigsaws: bool,
}

/// Answers a keep-alive probe during play.
pub struct ServerboundKeepAlive {
    pub keep_alive_id: i64,
}

/// Locks or unlocks the world difficulty.
pub struct LockDifficulty {
    pub locked: bool,
}

/// Reports the player's movement flags.
pub struct SetPlayerMovementFlags {
    pub flags: u8,
}

/// Reports the paddle state of a boat.
pub struct PaddleBoat {
    pub left_paddle_turning: bool,
    pub right_paddle_turning: bool,
}

/// Picks the item of a targeted block into the inventory.
pub struct PickItemFromBlock {
    pub location: Position,
    pub include_data: bool,
}

/// Picks the item of a targeted entity into the inventory.
pub struct PickItemFromEntity {
    pub entity_id: VarInt,
    pub include_data: bool,
}

/// Client ping carrying an opaque payload, sent during play.
pub struct PingRequest {
    pub payload: i64,
}

/// Places a recipe's ingredients into the crafting grid.
pub struct PlaceRecipe {
    pub window_id: VarInt,
    pub recipe_id: VarInt,
    pub make_all: bool,
}

/// Reports the player's ability flags.
pub struct ServerboundPlayerAbilities {
    pub flags: u8,
}

/// Starts, continues or ends a block-digging action.
pub struct PlayerAction {
    pub status: VarInt,
    pub location: Position,
    pub face: u8,
    pub sequence: VarInt,
}

/// Reports an entity action such as sneaking or sprinting.
pub struct PlayerCommand {
    pub entity_id: VarInt,
    pub action_id: VarInt,
    pub jump_boost: VarInt,
}

/// Reports the player's movement input flags.
pub struct PlayerInput {
    pub flags: u8,
}

/// Marks the player as fully loaded into the world.
pub struct PlayerLoaded;

/// Answers a server ping during play.
pub struct Pong {
    pub id: i32,
}

/// Changes the display settings of one recipe book tab.
pub struct ChangeRecipeBookSettings {
    pub book_id: VarInt,
    pub book_open: bool,
    pub filter_active: bool,
}

/// Marks a recipe as seen.
pub struct SetSeenRecipe {
    pub recipe_id: VarInt,
}

/// Renames the item on the anvil.
pub struct RenameItem {
    pub item_name: String,
}

/// The client's verdict on an offered resource pack, sent during play.
pub struct ServerboundResourcePackResponse {
    pub uuid: Uuid,
    pub result: VarInt,
}

/// Reports which advancements tab the client views.
pub struct SeenAdvancements {
    pub action: VarInt,
    pub tab_id: Option<Identifier>,
}

/// Selects a villager trade.
pub struct SelectTrade {
    pub selected_slot: VarInt,
}

/// Programs a beacon's effects.
pub struct SetBeaconEffect {
    pub primary_effect: Option<VarInt>,
    pub secondary_effect: Option<VarInt>,
}

/// Selects the held hotbar slot.
pub struct SetHeldItem {
    pub slot: i16,
}

/// Programs a command block.
pub struct ProgramCommandBlock {
    pub location: Position,
    pub command: String,
    pub mode: VarInt,
    pub flags: u8,
}

/// Programs a command block minecart.
pub struct ProgramCommandBlockMinecart {
    pub entity_id: VarInt,
    pub command: String,
    pub track_output: bool,
}

/// Replaces a slot directly in creative mode.
pub struct SetCreativeModeSlot {
    pub slot: i16,
    pub clicked_item: Slot,
}

/// Programs a jigsaw block.
pub struct ProgramJigsawBlock {
    pub location: Position,
    pub name: Identifier,
    pub target: Identifier,
    pub pool: Identifier,
    pub final_state: String,
    pub joint_type: String,
    pub selection_priority: VarInt,
    pub placement_priority: VarInt,
}

/// Programs a test block.
pub struct SetTestBlock {
    pub position: Position,
    pub mode: VarInt,
    pub message: String,
}

/// Replaces the text of a sign.
pub struct UpdateSign {
    pub location: Position,
    pub is_front_text: bool,
    pub line1: String,
    pub line2: String,
    pub line3: String,
    pub line4: String,
}

/// Swings an arm.
pub struct SwingArm {
    pub hand: VarInt,
}

/// Teleports a spectator to another player.
pub struct TeleportToEntity {
    pub target_player: Uuid,
}

/// Acts on a test instance block.
pub struct TestInstanceBlockAction {
    pub position: Position,
    pub action: VarInt,
    pub test: Option<VarInt>,
    pub size_x: VarInt,
    pub size_y: VarInt,
    pub size_z: VarInt,
    pub rotation: VarInt,
    pub ignore_entities: bool,
    pub status: VarInt,
    pub error_message: Option<JsonTextComponent>,
}

} // verus!
