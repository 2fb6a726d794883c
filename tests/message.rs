use privchat_protocol::message::{
    MessageSetting, MessageType, PublishRequest, PublishResponse, RecvBatchRequest,
    RecvBatchResponse, RecvRequest, SendRequest,
};

#[test]
fn lib_test_message_types() {
    assert_eq!(u8::from(MessageType::ConnectRequest), 1);
    assert_eq!(u8::from(MessageType::ConnectResponse), 2);
    assert_eq!(u8::from(MessageType::DisconnectRequest), 3);
    assert_eq!(u8::from(MessageType::DisconnectResponse), 4);
    assert_eq!(u8::from(MessageType::SendRequest), 5);
    assert_eq!(u8::from(MessageType::SendResponse), 6);
    assert_eq!(u8::from(MessageType::RecvRequest), 7);
    assert_eq!(u8::from(MessageType::RecvResponse), 8);
    assert_eq!(u8::from(MessageType::RecvBatchRequest), 9);
    assert_eq!(u8::from(MessageType::RecvBatchResponse), 10);
    assert_eq!(u8::from(MessageType::PingRequest), 11);
    assert_eq!(u8::from(MessageType::PongResponse), 12);
    assert_eq!(u8::from(MessageType::SubscribeRequest), 13);
    assert_eq!(u8::from(MessageType::SubscribeResponse), 14);
    assert_eq!(u8::from(MessageType::PublishRequest), 15);
    assert_eq!(u8::from(MessageType::PublishResponse), 16);
}

#[test]
fn test_send_message() {
    let mut send_req = SendRequest::new();
    send_req.from_uid = "sender123".to_string();
    send_req.channel_id = "channel456".to_string();
    send_req.payload = "Hello World".as_bytes().to_vec();

    let packet = send_req.create_packet();
    assert_eq!(packet.message_type, MessageType::SendRequest);
}

#[test]
fn test_recv_message() {
    let mut recv_req = RecvRequest::new();
    recv_req.from_uid = "sender456".to_string();
    recv_req.channel_id = "channel789".to_string();
    recv_req.payload = "Hello Back".as_bytes().to_vec();

    let packet = recv_req.create_packet();
    assert_eq!(packet.message_type, MessageType::RecvRequest);
}

#[test]
fn message_test_message_types() {
    assert_eq!(u8::from(MessageType::ConnectRequest), 1);
    assert_eq!(u8::from(MessageType::ConnectResponse), 2);
    assert_eq!(u8::from(MessageType::DisconnectRequest), 3);
    assert_eq!(u8::from(MessageType::DisconnectResponse), 4);
    assert_eq!(u8::from(MessageType::SendRequest), 5);
    assert_eq!(u8::from(MessageType::SendResponse), 6);
    assert_eq!(u8::from(MessageType::RecvRequest), 7);
    assert_eq!(u8::from(MessageType::RecvResponse), 8);
    assert_eq!(u8::from(MessageType::RecvBatchRequest), 9);
    assert_eq!(u8::from(MessageType::RecvBatchResponse), 10);
    assert_eq!(u8::from(MessageType::PingRequest), 11);
    assert_eq!(u8::from(MessageType::PongResponse), 12);
    assert_eq!(u8::from(MessageType::SubscribeRequest), 13);
    assert_eq!(u8::from(MessageType::SubscribeResponse), 14);
    assert_eq!(u8::from(MessageType::PublishRequest), 15);
    assert_eq!(u8::from(MessageType::PublishResponse), 16);
}

#[test]
fn message_test_message_type_conversion() {
    assert_eq!(MessageType::from(1u8), MessageType::ConnectRequest);
    assert_eq!(MessageType::from(2u8), MessageType::ConnectResponse);
    assert_eq!(MessageType::from(3u8), MessageType::DisconnectRequest);
    assert_eq!(MessageType::from(16u8), MessageType::PublishResponse);

    assert_eq!(MessageType::from(0u8), MessageType::ConnectRequest);
    assert_eq!(MessageType::from(255u8), MessageType::ConnectRequest);

    assert_eq!(u8::from(MessageType::ConnectRequest), 1);
    assert_eq!(u8::from(MessageType::ConnectResponse), 2);
    assert_eq!(u8::from(MessageType::PublishResponse), 16);

    for i in 1u8..=16u8 {
        let msg_type = MessageType::from(i);
        let back_to_u8 = u8::from(msg_type);
        assert_eq!(back_to_u8, i, "转换不一致：{} -> {:?} -> {}", i, msg_type, back_to_u8);
    }
}

#[test]
fn message_test_message_setting() {
    let setting = MessageSetting::new();
    assert_eq!(setting.need_receipt, false);
    assert_eq!(setting.signal, 0);

    let setting2 = MessageSetting { need_receipt: true, signal: 1 };
    assert_eq!(setting2.need_receipt, true);
    assert_eq!(setting2.signal, 1);
}

#[test]
fn message_test_batch_message() {
    let mut messages = Vec::new();
    for i in 1..=3 {
        let mut recv_msg = RecvRequest::new();
        recv_msg.message_id = num_bigint::BigInt::from(i);
        recv_msg.from_uid = format!("user_{}", i);
        recv_msg.payload = format!("Message {}", i).into_bytes();
        messages.push(recv_msg);
    }

    let batch_msg = RecvBatchRequest::single_batch(messages);
    assert_eq!(batch_msg.message_count(), 3);

    let packet = batch_msg.create_packet();
    assert_eq!(packet.message_type, MessageType::RecvBatchRequest);
}

#[test]
fn message_test_publish_message() {
    let system_msg = PublishRequest::system_push("news_channel", "系统通知内容".as_bytes().to_vec());
    assert_eq!(system_msg.channel_id, "news_channel");
    assert_eq!(system_msg.publisher, Some("system".to_string()));
    assert!(system_msg.message_id.is_some());

    let packet = system_msg.create_packet();
    assert_eq!(packet.message_type, MessageType::PublishRequest);

    let topic_msg = PublishRequest::topic_push("tech_channel", "rust", "Rust新特性介绍".as_bytes().to_vec());
    assert_eq!(topic_msg.channel_id, "tech_channel");
    assert_eq!(topic_msg.topic, Some("rust".to_string()));
    assert!(topic_msg.message_id.is_some());

    let ack = PublishResponse::success();
    assert_eq!(ack.succeed, true);
    assert_eq!(ack.message, Some("推送消息接收成功".to_string()));

    let ack_packet = ack.create_packet();
    assert_eq!(ack_packet.message_type, MessageType::PublishResponse);
}

#[test]
fn message_test_recv_batch_ack_message() {
    let batch_ack = RecvBatchResponse::success();
    assert_eq!(batch_ack.succeed, true);
    assert_eq!(batch_ack.message, Some("批量消息接收成功".to_string()));

    let packet = batch_ack.create_packet();
    assert_eq!(packet.message_type, MessageType::RecvBatchResponse);
}

#[test]
fn push_message_ids_carry_the_timestamp() {
    let p = PublishRequest::system_push_at("news", vec![1, 2], 1700000000);
    assert_eq!(p.message_id, Some("sys_news_1700000000".to_string()));
    assert_eq!(p.timestamp, 1700000000);
    let t = PublishRequest::topic_push_at("tech", "rust", vec![], 7);
    assert_eq!(t.message_id, Some("topic_rust_7".to_string()));
    assert_eq!(t.publisher, None);
}

#[test]
fn verify_strings_join_fields() {
    let mut s = SendRequest::new();
    s.client_msg_no = "m1".to_string();
    s.channel_id = "c2".to_string();
    s.from_uid = "u3".to_string();
    assert_eq!(s.verify_string(), "m1:c2:u3");

    let mut r = RecvRequest::new();
    r.message_id = num_bigint::BigInt::from(42);
    r.channel_id = "c".to_string();
    r.from_uid = "u".to_string();
    assert_eq!(r.verify_string(), "42:c:u");
}

#[test]
fn batch_failure_keeps_the_reason() {
    let f = RecvBatchResponse::failure("boom");
    assert!(!f.succeed);
    assert_eq!(f.message, Some("boom".to_string()));
    assert!(RecvBatchRequest::new().is_empty());
}
