use mcproto::login::{
    CookieRequestLogin, CookieResponseLogin, DisconnectLogin, EncryptionRequest,
    EncryptionResponse, LoginAcknowledged, LoginPluginRequest, LoginPluginResponse,
};
use mcproto::types::VarInt;
use mcproto::login::SetCompression;

#[test]
fn test_disconnect_login_instantiation() {
    let packet = DisconnectLogin {
        reason: r#"{"text":"Disconnected by server"}"#.to_string(),
    };
    assert!(!packet.reason.is_empty());
}

#[test]
fn test_encryption_request_instantiation() {
    let packet = EncryptionRequest {
        server_id: "".to_string(),
        public_key: vec![1, 2, 3, 4],
        verify_token: vec![5, 6, 7, 8],
        should_authenticate: true,
    };
    assert!(packet.server_id.is_empty());
    assert_eq!(packet.public_key, vec![1, 2, 3, 4]);
    assert_eq!(packet.verify_token, vec![5, 6, 7, 8]);
    assert!(packet.should_authenticate);
}

#[test]
fn test_set_compression_instantiation() {
    let packet = SetCompression {
        threshold: VarInt(256),
    };
    assert_eq!(packet.threshold, VarInt(256));
}

#[test]
fn test_login_plugin_request_instantiation() {
    let packet = LoginPluginRequest {
        message_id: VarInt(1),
        channel: "my:channel".to_string(),
        data: vec![10, 20, 30],
    };
    assert_eq!(packet.message_id, VarInt(1));
    assert_eq!(packet.channel, "my:channel");
    assert_eq!(packet.data, vec![10, 20, 30]);
}

#[test]
fn test_cookie_request_login_instantiation() {
    let packet = CookieRequestLogin {
        key: "my:cookie_key".to_string(),
    };
    assert_eq!(packet.key, "my:cookie_key");
}

#[test]
fn test_encryption_response_instantiation() {
    let packet = EncryptionResponse {
        shared_secret: vec![11, 12, 13, 14],
        verify_token: vec![15, 16, 17, 18],
    };
    assert_eq!(packet.shared_secret, vec![11, 12, 13, 14]);
    assert_eq!(packet.verify_token, vec![15, 16, 17, 18]);
}

#[test]
fn test_login_plugin_response_instantiation() {
    let packet_with_data = LoginPluginResponse {
        message_id: VarInt(2),
        data: Some(vec![40, 50, 60]),
    };
    assert_eq!(packet_with_data.message_id, VarInt(2));
    assert_eq!(packet_with_data.data, Some(vec![40, 50, 60]));

    let packet_without_data = LoginPluginResponse {
        message_id: VarInt(3),
        data: None,
    };
    assert_eq!(packet_without_data.message_id, VarInt(3));
    assert_eq!(packet_without_data.data, None);
}

#[test]
fn test_login_acknowledged_instantiation() {
    let _packet = LoginAcknowledged;
    assert!(true);
}

#[test]
fn test_cookie_response_login_instantiation() {
    let packet_with_payload = CookieResponseLogin {
        key: "another:cookie".to_string(),
        payload: Some(vec![1, 2, 3]),
    };
    assert_eq!(packet_with_payload.key, "another:cookie");
    assert_eq!(packet_with_payload.payload, Some(vec![1, 2, 3]));

    let packet_without_payload = CookieResponseLogin {
        key: "empty:cookie".to_string(),
        payload: None,
    };
    assert_eq!(packet_without_payload.key, "empty:cookie");
    assert_eq!(packet_without_payload.payload, None);
}
