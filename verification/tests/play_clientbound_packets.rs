use mcproto::play::clientbound::{
    AcknowledgeBlockChange, AwardStatistics, BlockAction, BlockEntityData,
    BlockUpdate, BundleDelimiter, ChangeDifficulty, ChatSuggestions,
    ChunkBatchFinished, ChunkBatchStart, ChunkBiomes, ChunkDataAndUpdateLight,
    ClearTitles, ClientboundKeepAlivePlay, ClientboundPluginMessagePlay, CloseContainer,
    CombatDeath, CommandSuggestionsResponse, Commands, CookieRequestPlay,
    CustomReportDetailsPlay, DebugSample, DeleteMessage, DisconnectPlay,
    DisguisedChatMessage, DisplayObjective, EndCombat, EnterCombat,
    EntityAnimationPacket, EntityEffect, EntityEvent, LinkEntities,
    LoginPlay, MapData, OpenBook, OpenHorseScreen,
    OpenScreen, OpenSignEditor, PickupItem, PingPlay,
    PingResponsePlay, PlaceGhostRecipe, RecipeBookAdd, RecipeBookRemove,
    RecipeBookSettings, RemoveEntities, RemoveEntityEffect, ResetScore,
    Respawn, SelectAdvancementsTab, ServerData, ServerLinksPlay,
    SetActionBarText, SetBlockDestroyStage, SetBorderWarningDelay, SetBorderWarningDistance,
    SetCamera, SetCenterChunk, SetContainerContent, SetContainerProperty,
    SetContainerSlot, SetCooldown, SetCursorItem, SetEntityMetadata,
    SetEntityVelocity, SetEquipment, SetHeadRotation, SetHeldItem,
    SetPassengers, SetPlayerInventorySlot, SetRenderDistance, SetSimulationDistance,
    SetSubtitleText, SetTabListHeaderAndFooter, SetTitleAnimationTimes, SetTitleText,
    StartConfiguration, StepTick, StopSound, StoreCookiePlay,
    SystemChatMessage, TagQueryResponse, TransferPlay, UnloadChunk,
    UpdateEntityPosition, UpdateEntityPositionAndRotation, UpdateEntityRotation, UpdateLight,
    UpdateObjectives, UpdateRecipes, UpdateScore, UpdateSectionBlocks,
    UpdateTagsPlay, UpdateTeams, UpdateTime, WorldEvent,
};
use mcproto::types::{
    BuiltInServerLinkLabel, ChatSuggestionAction, ChatTypeData, ChunkData,
    ChunkSectionBlockUpdate, CustomReportDetail, Difficulty, EntityAnimation,
    EntityEffectFlags, EntityMetadata, EquipmentEntry, EquipmentSlot,
    FriendlyFlags, GameMode, Hand, IdOr,
    IdSet, Identifier, JsonTextComponent, LightData,
    MainHand, MapColorPatch, MapIcon, MapIconType,
    Nbt, ObjectiveMode, ObjectiveType, Position,
    PreviousGameMode, RecipeBookEntry, RecipeBookFlags, RecipeDisplay,
    RespawnDataKeptFlags, ServerLink, ServerLinkLabel, Slot,
    SlotDisplay, SoundCategory, SoundEvent, Statistic,
    StatisticCategory, StopSoundFlags, SuggestionMatch, TeamColor,
    VarInt,
};
use std::collections::HashMap;

fn dummy_text() -> JsonTextComponent {
    r#"{"text":""}"#.into()
}
fn dummy_id() -> Identifier {
    "minecraft:stone".into()
}
fn dummy_slot() -> Slot {
    vec![]
}
fn dummy_nbt() -> Nbt {
    vec![]
}
fn dummy_metadata() -> EntityMetadata {
    vec![]
}
fn dummy_chunk_data() -> ChunkData {
    vec![]
}
fn dummy_light_data() -> LightData {
    vec![]
}
fn dummy_recipe_display() -> RecipeDisplay {
    vec![]
}

#[test]
fn test_bundle_delimiter() {
    let _p = BundleDelimiter;
    assert!(true);
}

#[test]
fn test_entity_animation() {
    let _p = EntityAnimationPacket {
        entity_id: VarInt::from(1),
        animation: EntityAnimation::SwingMainArm.code() as u8,
    };
    assert!(true);
}

#[test]
fn test_award_statistics() {
    let _p = AwardStatistics {
        statistics: vec![Statistic {
            category_id: VarInt::from(StatisticCategory::Custom.code()),
            statistic_id: VarInt::from(0),
            value: VarInt::from(1),
        }],
    };
    assert!(true);
}

#[test]
fn test_acknowledge_block_change() {
    let _p = AcknowledgeBlockChange {
        sequence_id: VarInt::from(1),
    };
    assert!(true);
}

#[test]
fn test_set_block_destroy_stage() {
    let _p = SetBlockDestroyStage {
        entity_id: VarInt::from(1),
        location: Position { x: 0, y: 0, z: 0 },
        destroy_stage: 5,
    };
    assert!(true);
}

#[test]
fn test_block_entity_data() {
    let _p = BlockEntityData {
        location: Position { x: 0, y: 0, z: 0 },
        block_entity_type: VarInt::from(1),
        nbt_data: dummy_nbt(),
    };
    assert!(true);
}

#[test]
fn test_block_action() {
    let _p = BlockAction {
        location: Position { x: 0, y: 0, z: 0 },
        action_id: 1,
        action_param: 0,
        block_type: VarInt::from(1),
    };
    assert!(true);
}

#[test]
fn test_block_update() {
    let _p = BlockUpdate {
        location: Position { x: 0, y: 0, z: 0 },
        block_id: VarInt::from(1),
    };
    assert!(true);
}

#[test]
fn clientbound_test_change_difficulty() {
    let _p = ChangeDifficulty {
        difficulty: Difficulty::Hard.code() as u8,
        difficulty_locked: true,
    };
    assert!(true);
}

#[test]
fn test_chunk_batch_finished() {
    let _p = ChunkBatchFinished {
        batch_size: VarInt::from(10),
    };
    assert!(true);
}

#[test]
fn test_chunk_batch_start() {
    let _p = ChunkBatchStart;
    assert!(true);
}

#[test]
fn test_chunk_biomes() {
    let _p = ChunkBiomes {
        chunk_biome_data: vec![],
    };
    assert!(true);
}

#[test]
fn test_clear_titles() {
    let _p = ClearTitles { reset: true };
    assert!(true);
}

#[test]
fn test_command_suggestions_response() {
    let _p = CommandSuggestionsResponse {
        id: VarInt::from(1),
        start: VarInt::from(0),
        length: VarInt::from(5),
        matches: vec![SuggestionMatch {
            match_text: "test".into(),
            tooltip: None,
        }],
    };
    assert!(true);
}

#[test]
fn test_commands() {
    let _p = Commands {
        nodes: vec![],
        root_index: VarInt::from(0),
    };
    assert!(true);
}

#[test]
fn clientbound_test_close_container() {
    let _p = CloseContainer {
        window_id: VarInt::from(1),
    };
    assert!(true);
}

#[test]
fn test_set_container_content() {
    let _p = SetContainerContent {
        window_id: VarInt::from(1),
        state_id: VarInt::from(1),
        slot_data: vec![dummy_slot()],
        carried_item: dummy_slot(),
    };
    assert!(true);
}

#[test]
fn test_set_container_property() {
    let _p = SetContainerProperty {
        window_id: VarInt::from(1),
        property: 0,
        value: 100,
    };
    assert!(true);
}

#[test]
fn test_set_container_slot() {
    let _p = SetContainerSlot {
        window_id: 1,
        state_id: VarInt::from(1),
        slot: 0,
        slot_data: dummy_slot(),
    };
    assert!(true);
}

#[test]
fn test_cookie_request_play() {
    let _p = CookieRequestPlay { key: dummy_id() };
    assert!(true);
}

#[test]
fn test_set_cooldown() {
    let _p = SetCooldown {
        item_id: VarInt::from(1),
        cooldown_ticks: VarInt::from(20),
    };
    assert!(true);
}

#[test]
fn test_chat_suggestions() {
    let _p = ChatSuggestions {
        action: VarInt::from(ChatSuggestionAction::Add.code()),
        entries: vec!["hello".into()],
    };
    assert!(true);
}

#[test]
fn test_clientbound_plugin_message_play() {
    let _p = ClientboundPluginMessagePlay {
        channel: dummy_id(),
        data: vec![1, 2, 3],
    };
    assert!(true);
}

#[test]
fn test_debug_sample() {
    let _p = DebugSample {
        sample: vec![100, 200],
        sample_type: VarInt::from(0),
    };
    assert!(true);
}

#[test]
fn test_delete_message() {
    let _p = DeleteMessage {
        message_id: VarInt::from(1),
        signature: None,
    };
    assert!(true);
}

#[test]
fn test_disconnect_play() {
    let _p = DisconnectPlay {
        reason: dummy_text(),
    };
    assert!(true);
}

#[test]
fn test_disguised_chat_message() {
    let _p = DisguisedChatMessage {
        message: dummy_text(),
        chat_type: IdOr::Id(VarInt::from(0)),
        sender_name: dummy_text(),
        target_name: None,
    };
    assert!(true);
}

#[test]
fn test_entity_event() {
    let _p = EntityEvent {
        entity_id: 1,
        entity_status: 2,
    };
    assert!(true);
}

#[test]
fn test_unload_chunk() {
    let _p = UnloadChunk {
        chunk_x: 0,
        chunk_z: 0,
    };
    assert!(true);
}

#[test]
fn test_open_horse_screen() {
    let _p = OpenHorseScreen {
        window_id: VarInt::from(1),
        inventory_columns_count: VarInt::from(2),
        entity_id: 1,
    };
    assert!(true);
}

#[test]
fn test_clientbound_keep_alive_play() {
    let _p = ClientboundKeepAlivePlay {
        keep_alive_id: 12345,
    };
    assert!(true);
}

#[test]
fn test_chunk_data_and_update_light() {
    let _p = ChunkDataAndUpdateLight {
        chunk_x: 0,
        chunk_z: 0,
        chunk_data: dummy_chunk_data(),
        light_data: dummy_light_data(),
    };
    assert!(true);
}

#[test]
fn test_world_event() {
    let _p = WorldEvent {
        event: 1000,
        location: Position { x: 0, y: 0, z: 0 },
        data: 0,
        disable_relative_volume: false,
    };
    assert!(true);
}

#[test]
fn test_update_light() {
    let _p = UpdateLight {
        chunk_x: VarInt::from(0),
        chunk_z: VarInt::from(0),
        light_data: dummy_light_data(),
    };
    assert!(true);
}

#[test]
fn test_login_play() {
    let _p = LoginPlay {
        entity_id: 1,
        is_hardcore: false,
        dimension_names: vec![dummy_id()],
        max_players: VarInt::from(20),
        view_distance: VarInt::from(10),
        simulation_distance: VarInt::from(10),
        reduced_debug_info: false,
        enable_respawn_screen: true,
        do_limited_crafting: false,
        dimension_type: VarInt::from(0),
        dimension_name: dummy_id(),
        hashed_seed: 0,
        game_mode: GameMode::Survival.code() as u8,
        previous_game_mode: PreviousGameMode::Undefined.code() as i8,
        is_debug: false,
        is_flat: false,
        death_location: None,
        portal_cooldown: VarInt::from(0),
        sea_level: VarInt::from(63),
        enforces_secure_chat: false,
    };
    assert!(true);
}

#[test]
fn test_map_data() {
    let _p = MapData {
        map_id: VarInt::from(0),
        scale: 1,
        locked: false,
        icons: Some(vec![MapIcon {
            icon_type: VarInt::from(MapIconType::Player.code()),
            x: 0,
            z: 0,
            direction: 0,
            display_name: None,
        }]),
        color_patch: Some(MapColorPatch {
            columns: 1,
            rows: 1,
            x: 0,
            z: 0,
            data: vec![0],
        }),
    };
    assert!(true);
}

#[test]
fn test_update_entity_position() {
    let _p = UpdateEntityPosition {
        entity_id: VarInt::from(1),
        delta_x: 0,
        delta_y: 10,
        delta_z: 0,
        on_ground: true,
    };
    assert!(true);
}

#[test]
fn test_update_entity_position_and_rotation() {
    let _p = UpdateEntityPositionAndRotation {
        entity_id: VarInt::from(1),
        delta_x: 0,
        delta_y: 10,
        delta_z: 0,
        yaw: 0,
        pitch: 0,
        on_ground: true,
    };
    assert!(true);
}

#[test]
fn test_update_entity_rotation() {
    let _p = UpdateEntityRotation {
        entity_id: VarInt::from(1),
        yaw: 0,
        pitch: 0,
        on_ground: true,
    };
    assert!(true);
}

#[test]
fn test_open_book() {
    let _p = OpenBook {
        hand: VarInt::from(Hand::MainHand.code()),
    };
    assert!(true);
}

#[test]
fn test_open_screen() {
    let _p = OpenScreen {
        window_id: VarInt::from(1),
        window_type: VarInt::from(0),
        window_title: dummy_text(),
    };
    assert!(true);
}

#[test]
fn test_open_sign_editor() {
    let _p = OpenSignEditor {
        location: Position { x: 0, y: 0, z: 0 },
        is_front_text: true,
    };
    assert!(true);
}

#[test]
fn test_ping_play() {
    let _p = PingPlay { id: 123 };
    assert!(true);
}

#[test]
fn test_ping_response_play() {
    let _p = PingResponsePlay { payload: 123 };
    assert!(true);
}

#[test]
fn test_place_ghost_recipe() {
    let _p = PlaceGhostRecipe {
        window_id: VarInt::from(1),
        recipe_display: dummy_recipe_display(),
    };
    assert!(true);
}

#[test]
fn test_end_combat() {
    let _p = EndCombat {
        duration: VarInt::from(100),
    };
    assert!(true);
}

#[test]
fn test_enter_combat() {
    let _p = EnterCombat;
    assert!(true);
}

#[test]
fn test_combat_death() {
    let _p = CombatDeath {
        player_id: VarInt::from(1),
        message: dummy_text(),
    };
    assert!(true);
}

#[test]
fn test_recipe_book_add() {
    let _p = RecipeBookAdd {
        recipes: vec![RecipeBookEntry {
            recipe_id: VarInt::from(0),
            display: dummy_recipe_display(),
            group_id: VarInt::from(0),
            category_id: VarInt::from(0),
            ingredients: None,
            flags: RecipeBookFlags::show_notification().bits(),
        }],
        replace: false,
    };
    assert!(true);
}

#[test]
fn test_recipe_book_remove() {
    let _p = RecipeBookRemove {
        recipes: vec![VarInt::from(0)],
    };
    assert!(true);
}

#[test]
fn test_recipe_book_settings() {
    let _p = RecipeBookSettings {
        crafting_open: true,
        crafting_filter: false,
        smelting_open: false,
        smelting_filter: false,
        blast_furnace_open: false,
        blast_furnace_filter: false,
        smoker_open: false,
        smoker_filter: false,
    };
    assert!(true);
}

#[test]
fn test_remove_entities() {
    let _p = RemoveEntities {
        entity_ids: vec![VarInt::from(1), VarInt::from(2)],
    };
    assert!(true);
}

#[test]
fn test_remove_entity_effect() {
    let _p = RemoveEntityEffect {
        entity_id: VarInt::from(1),
        effect_id: VarInt::from(1),
    };
    assert!(true);
}

#[test]
fn test_reset_score() {
    let _p = ResetScore {
        entity_name: "Player".into(),
        objective_name: Some("dummy".into()),
    };
    assert!(true);
}

#[test]
fn test_respawn() {
    let _p = Respawn {
        dimension_type: VarInt::from(0),
        dimension_name: dummy_id(),
        hashed_seed: 0,
        game_mode: GameMode::Survival.code() as u8,
        previous_game_mode: PreviousGameMode::Undefined.code() as i8,
        is_debug: false,
        is_flat: false,
        death_location: None,
        portal_cooldown: VarInt::from(0),
        sea_level: VarInt::from(63),
        data_kept: RespawnDataKeptFlags::keep_attributes().bits(),
    };
    assert!(true);
}

#[test]
fn test_set_head_rotation() {
    let _p = SetHeadRotation {
        entity_id: VarInt::from(1),
        head_yaw: 0,
    };
    assert!(true);
}

#[test]
fn test_update_section_blocks() {
    let _p = UpdateSectionBlocks {
        chunk_section_position: 0,
        blocks: vec![ChunkSectionBlockUpdate {
            block_state_id_and_pos: 0,
        }],
    };
    assert!(true);
}

#[test]
fn test_select_advancements_tab() {
    let _p = SelectAdvancementsTab {
        identifier: Some(dummy_id()),
    };
    assert!(true);
}

#[test]
fn test_server_data() {
    let _p = ServerData {
        motd: dummy_text(),
        icon: None,
    };
    assert!(true);
}

#[test]
fn test_set_action_bar_text() {
    let _p = SetActionBarText {
        action_bar_text: dummy_text(),
    };
    assert!(true);
}

#[test]
fn test_set_border_warning_delay() {
    let _p = SetBorderWarningDelay {
        warning_time: VarInt::from(15),
    };
    assert!(true);
}

#[test]
fn test_set_border_warning_distance() {
    let _p = SetBorderWarningDistance {
        warning_blocks: VarInt::from(5),
    };
    assert!(true);
}

#[test]
fn test_set_camera() {
    let _p = SetCamera {
        camera_id: VarInt::from(1),
    };
    assert!(true);
}

#[test]
fn test_set_center_chunk() {
    let _p = SetCenterChunk {
        chunk_x: VarInt::from(0),
        chunk_z: VarInt::from(0),
    };
    assert!(true);
}

#[test]
fn test_set_render_distance() {
    let _p = SetRenderDistance {
        view_distance: VarInt::from(10),
    };
    assert!(true);
}

#[test]
fn test_set_cursor_item() {
    let _p = SetCursorItem {
        carried_item: dummy_slot(),
    };
    assert!(true);
}

#[test]
fn test_display_objective() {
    let _p = DisplayObjective {
        position: VarInt::from(1),
        score_name: "sidebar".into(),
    };
    assert!(true);
}

#[test]
fn test_set_entity_metadata() {
    let _p = SetEntityMetadata {
        entity_id: VarInt::from(1),
        metadata: dummy_metadata(),
    };
    assert!(true);
}

#[test]
fn test_link_entities() {
    let _p = LinkEntities {
        attached_entity_id: 1,
        holding_entity_id: 2,
    };
    assert!(true);
}

#[test]
fn test_set_entity_velocity() {
    let _p = SetEntityVelocity {
        entity_id: VarInt::from(1),
        velocity_x: 0,
        velocity_y: 100,
        velocity_z: 0,
    };
    assert!(true);
}

#[test]
fn test_set_equipment() {
    let _p = SetEquipment {
        entity_id: VarInt::from(1),
        equipment: vec![EquipmentEntry {
            slot: EquipmentSlot::MainHand.code() as u8,
            item: dummy_slot(),
        }],
    };
    assert!(true);
}

#[test]
fn clientbound_test_set_held_item() {
    let _p = SetHeldItem {
        slot: VarInt::from(0),
    };
    assert!(true);
}

#[test]
fn test_update_objectives() {
    let _p = UpdateObjectives {
        objective_name: "dummy".into(),
        mode: ObjectiveMode::Create.code() as u8,
        objective_value: Some(dummy_text()),
        objective_type: Some(VarInt::from(ObjectiveType::Integer.code())),
        number_format: None,
    };
    assert!(true);
}

#[test]
fn test_set_passengers() {
    let _p = SetPassengers {
        entity_id: VarInt::from(1),
        passengers: vec![VarInt::from(2), VarInt::from(3)],
    };
    assert!(true);
}

#[test]
fn test_set_player_inventory_slot() {
    let _p = SetPlayerInventorySlot {
        slot: VarInt::from(9),
        slot_data: dummy_slot(),
    };
    assert!(true);
}

#[test]
fn test_update_teams() {
    let _p = UpdateTeams::Create {
        team_name: "blue".into(),
        display_name: dummy_text(),
        friendly_flags: FriendlyFlags::allow_friendly_fire().bits(),
        name_tag_visibility: "always".into(),
        collision_rule: "always".into(),
        team_color: VarInt::from(TeamColor::Blue.code()),
        team_prefix: dummy_text(),
        team_suffix: dummy_text(),
        entities: vec!["Player".into()],
    };
    assert!(true);
}

#[test]
fn test_update_score() {
    let _p = UpdateScore {
        entity_name: "Player".into(),
        objective_name: "dummy".into(),
        value: VarInt::from(10),
        display_name: None,
        number_format: None,
    };
    assert!(true);
}

#[test]
fn test_set_simulation_distance() {
    let _p = SetSimulationDistance {
        simulation_distance: VarInt::from(10),
    };
    assert!(true);
}

#[test]
fn test_set_subtitle_text() {
    let _p = SetSubtitleText {
        subtitle_text: dummy_text(),
    };
    assert!(true);
}

#[test]
fn test_update_time() {
    let _p = UpdateTime {
        world_age: 1000,
        time_of_day: 6000,
        time_of_day_increasing: true,
    };
    assert!(true);
}

#[test]
fn test_set_title_text() {
    let _p = SetTitleText {
        title_text: dummy_text(),
    };
    assert!(true);
}

#[test]
fn test_set_title_animation_times() {
    let _p = SetTitleAnimationTimes {
        fade_in: 10,
        stay: 70,
        fade_out: 20,
    };
    assert!(true);
}

#[test]
fn test_start_configuration() {
    let _p = StartConfiguration;
    assert!(true);
}

#[test]
fn test_stop_sound() {
    let _p = StopSound {
        flags: StopSoundFlags::has_source().bits(),
        source: Some(VarInt::from(SoundCategory::Master.code())),
        sound: None,
    };
    assert!(true);
}

#[test]
fn test_store_cookie_play() {
    let _p = StoreCookiePlay {
        key: dummy_id(),
        payload: vec![1, 2],
    };
    assert!(true);
}

#[test]
fn test_system_chat_message() {
    let _p = SystemChatMessage {
        content: dummy_text(),
        overlay: false,
    };
    assert!(true);
}

#[test]
fn test_set_tab_list_header_and_footer() {
    let _p = SetTabListHeaderAndFooter {
        header: dummy_text(),
        footer: dummy_text(),
    };
    assert!(true);
}

#[test]
fn test_tag_query_response() {
    let _p = TagQueryResponse {
        transaction_id: VarInt::from(1),
        nbt: dummy_nbt(),
    };
    assert!(true);
}

#[test]
fn test_pickup_item() {
    let _p = PickupItem {
        collected_entity_id: VarInt::from(1),
        collector_entity_id: VarInt::from(2),
        pickup_item_count: VarInt::from(1),
    };
    assert!(true);
}

#[test]
fn test_step_tick() {
    let _p = StepTick {
        tick_steps: VarInt::from(1),
    };
    assert!(true);
}

#[test]
fn test_transfer_play() {
    let _p = TransferPlay {
        host: "server.com".into(),
        port: VarInt::from(25565),
    };
    assert!(true);
}

#[test]
fn test_entity_effect() {
    let _p = EntityEffect {
        entity_id: VarInt::from(1),
        effect_id: VarInt::from(1),
        amplifier: VarInt::from(0),
        duration: VarInt::from(100),
        flags: EntityEffectFlags::show_particles().bits() | EntityEffectFlags::show_icon().bits(),
    };
    assert!(true);
}

#[test]
fn test_update_recipes() {
    let _p = UpdateRecipes {
        property_sets: vec![],
        stonecutter_recipes: vec![],
    };
    assert!(true);
}

#[test]
fn test_update_tags_play() {
    let _p = UpdateTagsPlay {
        tags: HashMap::new(),
    };
    assert!(true);
}

#[test]
fn test_custom_report_details_play() {
    let _p = CustomReportDetailsPlay {
        details: vec![CustomReportDetail {
            title: "info".into(),
            description: "data".into(),
        }],
    };
    assert!(true);
}

#[test]
fn test_server_links_play() {
    let _p = ServerLinksPlay {
        links: vec![ServerLink {
            label: ServerLinkLabel::BuiltIn(BuiltInServerLinkLabel::Website),
            url: "url".into(),
        }],
    };
    assert!(true);
}
