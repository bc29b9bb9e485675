use mcproto::configuration::{
    AcknowledgeFinishConfiguration, ClientInformationConfiguration, ClientboundKeepAliveConfiguration,
    ClientboundKnownPacks, ClientboundPluginMessageConfiguration, CookieRequestConfiguration,
    CookieResponseConfiguration, CustomReportDetailsConfiguration, DisconnectConfiguration,
    FeatureFlags, FinishConfiguration, PingConfiguration, PongConfiguration, RegistryData,
    ResetChat, ServerLinksConfiguration, ServerboundKeepAliveConfiguration,
    ServerboundKnownPacks, ServerboundPluginMessageConfiguration, StoreCookieConfiguration,
    TransferConfiguration, UpdateTagsConfiguration,
};
use mcproto::types::{
    BuiltInServerLinkLabel, ChatMode, CustomReportDetail, DisplayedSkinParts, KnownPack,
    MainHand, ParticleStatus, RegistryEntry, RegistryTagData, ServerLink, ServerLinkLabel, Tag,
    VarInt,
};

#[test]
fn test_cookie_request_config_instantiation() {
    let packet = CookieRequestConfiguration {
        key: "my:cookie".into(),
    };
    assert_eq!(packet.key, "my:cookie");
}

#[test]
fn test_plugin_message_config_instantiation() {
    let packet = ClientboundPluginMessageConfiguration {
        channel: "my:channel".into(),
        data: vec![1, 2, 3],
    };
    assert_eq!(packet.channel, "my:channel");
    assert_eq!(packet.data, vec![1, 2, 3]);
}

#[test]
fn test_disconnect_config_instantiation() {
    let packet = DisconnectConfiguration {
        reason: r#"{"text":"Config disconnect"}"#.into(),
    };
    assert!(!packet.reason.is_empty());
}

#[test]
fn test_finish_config_instantiation() {
    let _packet = FinishConfiguration;
    assert!(true);
}

#[test]
fn test_keep_alive_config_instantiation() {
    let packet = ClientboundKeepAliveConfiguration {
        keep_alive_id: 1234567890,
    };
    assert_eq!(packet.keep_alive_id, 1234567890);
}

#[test]
fn test_ping_config_instantiation() {
    let packet = PingConfiguration { id: 9876 };
    assert_eq!(packet.id, 9876);
}

#[test]
fn test_reset_chat_instantiation() {
    let _packet = ResetChat;
    assert!(true);
}

#[test]
fn test_registry_data_instantiation() {
    let packet = RegistryData {
        registry_id: "minecraft:dimension_type".into(),
        entries: vec![RegistryEntry {
            entry_id: "minecraft:overworld".into(),
            data: Some(vec![0x0a, 0x00]),
        }],
    };
    assert_eq!(packet.registry_id, "minecraft:dimension_type");
    assert_eq!(packet.entries.len(), 1);
}

#[test]
fn test_store_cookie_config_instantiation() {
    let packet = StoreCookieConfiguration {
        key: "my:persistent_cookie".into(),
        payload: vec![10, 20, 30],
    };
    assert_eq!(packet.key, "my:persistent_cookie");
    assert_eq!(packet.payload, vec![10, 20, 30]);
}

#[test]
fn test_transfer_config_instantiation() {
    let packet = TransferConfiguration {
        host: "anotherserver.com".into(),
        port: VarInt(25566),
    };
    assert_eq!(packet.host, "anotherserver.com");
    assert_eq!(packet.port, VarInt(25566));
}

#[test]
fn test_feature_flags_instantiation() {
    let packet = FeatureFlags {
        feature_flags: vec![
            "minecraft:vanilla".into(),
            "minecraft:experimental_feature".into(),
        ],
    };
    assert_eq!(packet.feature_flags.len(), 2);
    assert_eq!(packet.feature_flags[0], "minecraft:vanilla");
}

#[test]
fn test_update_tags_config_instantiation() {
    let packet = UpdateTagsConfiguration {
        tags: vec![RegistryTagData {
            registry_id: "minecraft:item".into(),
            tags: vec![Tag {
                tag_name: "minecraft:logs".into(),
                entries: vec![VarInt(1), VarInt(2), VarInt(3)],
            }],
        }],
    };
    assert_eq!(packet.tags.len(), 1);
    assert_eq!(packet.tags[0].registry_id, "minecraft:item");
    assert_eq!(packet.tags[0].tags.len(), 1);
}

#[test]
fn test_clientbound_known_packs_instantiation() {
    let packet = ClientboundKnownPacks {
        known_packs: vec![KnownPack {
            namespace: "minecraft".into(),
            id: "core".into(),
            version: "1.21.4".into(),
        }],
    };
    assert_eq!(packet.known_packs.len(), 1);
    assert_eq!(packet.known_packs[0].namespace, "minecraft");
}

#[test]
fn test_custom_report_details_instantiation() {
    let packet = CustomReportDetailsConfiguration {
        details: vec![CustomReportDetail {
            title: "Mod Version".into(),
            description: "1.2.3".into(),
        }],
    };
    assert_eq!(packet.details.len(), 1);
    assert_eq!(packet.details[0].title, "Mod Version");
}

#[test]
fn test_server_links_instantiation() {
    let packet = ServerLinksConfiguration {
        links: vec![
            ServerLink {
                label: ServerLinkLabel::BuiltIn(BuiltInServerLinkLabel::Website),
                url: "http://example.com".into(),
            },
            ServerLink {
                label: ServerLinkLabel::Custom(r#"{"text":"Discord"}"#.into()),
                url: "http://discord.gg/example".into(),
            },
        ],
    };
    assert_eq!(packet.links.len(), 2);
    assert!(matches!(packet.links[0].label, ServerLinkLabel::BuiltIn(_)));
    assert!(matches!(packet.links[1].label, ServerLinkLabel::Custom(_)));
}

#[test]
fn test_client_info_config_instantiation() {
    let packet = ClientInformationConfiguration {
        locale: "en_US".into(),
        view_distance: 8,
        chat_mode: ChatMode::Enabled,
        chat_colors: true,
        displayed_skin_parts: DisplayedSkinParts::all(),
        main_hand: MainHand::Right,
        enable_text_filtering: false,
        allow_server_listings: true,
        particle_status: ParticleStatus::All,
    };
    assert_eq!(packet.locale, "en_US");
    assert_eq!(packet.view_distance, 8);
    assert_eq!(packet.chat_mode, ChatMode::Enabled);
    assert!(packet.chat_colors);
    assert_eq!(packet.displayed_skin_parts, DisplayedSkinParts::all());
    assert_eq!(packet.main_hand, MainHand::Right);
    assert!(!packet.enable_text_filtering);
    assert!(packet.allow_server_listings);
    assert_eq!(packet.particle_status, ParticleStatus::All);
}

#[test]
fn test_cookie_response_config_instantiation() {
    let packet_some = CookieResponseConfiguration {
        key: "my:cookie".into(),
        payload: Some(vec![1, 2, 3]),
    };
    assert_eq!(packet_some.key, "my:cookie");
    assert_eq!(packet_some.payload, Some(vec![1, 2, 3]));
    let packet_none = CookieResponseConfiguration {
        key: "empty:cookie".into(),
        payload: None,
    };
    assert_eq!(packet_none.key, "empty:cookie");
    assert_eq!(packet_none.payload, None);
}

#[test]
fn test_serverbound_plugin_message_config_instantiation() {
    let packet = ServerboundPluginMessageConfiguration {
        channel: "brand".into(),
        data: vec![b'v', b'a', b'n', b'i', b'l', b'l', b'a'],
    };
    assert_eq!(packet.channel, "brand");
    assert_eq!(packet.data, b"vanilla");
}

#[test]
fn test_ack_finish_config_instantiation() {
    let _packet = AcknowledgeFinishConfiguration;
    assert!(true);
}

#[test]
fn test_serverbound_keep_alive_config_instantiation() {
    let packet = ServerboundKeepAliveConfiguration {
        keep_alive_id: 1234567890,
    };
    assert_eq!(packet.keep_alive_id, 1234567890);
}

#[test]
fn test_pong_config_instantiation() {
    let packet = PongConfiguration { id: 9876 };
    assert_eq!(packet.id, 9876);
}

#[test]
fn test_serverbound_known_packs_instantiation() {
    let packet = ServerboundKnownPacks {
        known_packs: vec![
            KnownPack {
                namespace: "minecraft".into(),
                id: "core".into(),
                version: "1.21.4".into(),
            },
            KnownPack {
                namespace: "custom".into(),
                id: "datapack".into(),
                version: "1.0".into(),
            },
        ],
    };
    assert_eq!(packet.known_packs.len(), 2);
    assert_eq!(packet.known_packs[1].namespace, "custom");
}
