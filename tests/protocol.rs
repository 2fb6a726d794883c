use privchat_protocol::protocol::{
    AuthType, AuthorizationRequest, Message, PingRequest, DeviceType, DisconnectResponse, MessageSetting, MessageType,
    PublishRequest, PushBatchRequest, PushBatchResponse, PushMessageRequest, RpcResponse,
    SendMessageRequest,
};

#[test]
fn protocol_test_message_creation() {
    let connect_msg = AuthorizationRequest::new();
    let packet = connect_msg.create_packet();
    assert_eq!(packet.message_type, MessageType::AuthorizationRequest);

    let send_msg = SendMessageRequest::new();
    let packet = send_msg.create_packet();
    assert_eq!(packet.message_type, MessageType::SendMessageRequest);
}

#[test]
fn protocol_test_message_types() {
    assert_eq!(u8::from(MessageType::AuthorizationRequest), 1);
    assert_eq!(u8::from(MessageType::SendMessageRequest), 5);
    assert_eq!(u8::from(MessageType::PushMessageRequest), 7);
}

#[test]
fn protocol_test_message_type_conversion() {
    assert_eq!(MessageType::from(1u8), MessageType::AuthorizationRequest);
    assert_eq!(u8::from(MessageType::AuthorizationRequest), 1);
}

#[test]
fn protocol_test_message_setting() {
    let setting = MessageSetting::new();
    assert_eq!(setting.need_receipt, false);
}

#[test]
fn protocol_test_batch_message() {
    let mut messages = Vec::new();
    for i in 1..=3 {
        let mut recv_msg = PushMessageRequest::new();
        recv_msg.server_message_id = i as u64;
        recv_msg.from_uid = i as u64;
        recv_msg.channel_id = 1;
        recv_msg.payload = format!("Message {}", i).into_bytes();
        messages.push(recv_msg);
    }

    let batch_msg = PushBatchRequest::single_batch(messages);
    assert_eq!(batch_msg.message_count(), 3);
}

#[test]
fn protocol_test_publish_message() {
    let system_msg = PublishRequest::system_push(12345, "系统通知内容".as_bytes().to_vec());
    assert_eq!(system_msg.channel_id, 12345);
}

#[test]
fn protocol_test_disconnect_ack_message() {
    let disconnect_ack = DisconnectResponse { acknowledged: true };
    assert_eq!(disconnect_ack.acknowledged, true);
}

#[test]
fn protocol_test_recv_batch_ack_message() {
    let batch_ack = PushBatchResponse::success();
    assert_eq!(batch_ack.succeed, true);
}

#[test]
fn device_type_names_read_in_any_case() {
    assert_eq!(DeviceType::from_str("IOS").as_str(), "ios");
    assert_eq!(DeviceType::from_str("FreeBSD").as_str(), "linux");
    assert_eq!(DeviceType::from_str("toaster").as_str(), "unknown");
    assert_eq!(DeviceType::from_lowercase(&"macos".to_string()).as_str(), "macos");
}

#[test]
fn rpc_response_outcomes() {
    assert!(RpcResponse::success_empty().is_ok());
    let e = RpcResponse::error(10000, "Authentication required".to_string());
    assert!(e.is_err());
    assert_eq!(e.code, 10000);
    assert_eq!(RpcResponse::new().message, "OK");
}

#[test]
fn push_verify_string_is_decimal() {
    let mut p = PushMessageRequest::new();
    p.server_message_id = 90;
    p.channel_id = 7;
    p.from_uid = 1234;
    assert_eq!(p.verify_string(), "90:7:1234");
    let s = PublishRequest::system_push_at(5, vec![], 99);
    assert_eq!(s.server_message_id, Some(99));
}

#[test]
fn authorization_request_starts_empty() {
    let r = AuthorizationRequest::new();
    assert!(matches!(r.auth_type, AuthType::JWT));
    assert!(r.device_info.device_id.is_empty());
    assert!(r.device_info.push_token.is_none());
    assert!(r.client_info.device_model.is_none());
    assert!(r.properties.is_empty());
    assert_eq!(r.protocol_version, privchat_protocol::VERSION);
}

#[test]
fn packet_type_matches_message_type() {
    let p = PingRequest::new();
    let t = p.message_type();
    assert_eq!(p.create_packet().message_type, t);
}
