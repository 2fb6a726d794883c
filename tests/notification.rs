use privchat_protocol::notification::{format_duration, yuan_string, NotificationMessage, NotificationType};

#[test]
fn test_display_text_generation() {
    let notification = NotificationType::GroupMemberJoined {
        group_id: 123,
        group_name: "测试群".to_string(),
        user_id: 456,
        username: "张三".to_string(),
        invited_by: Some(789),
        inviter_name: Some("李四".to_string()),
    };

    let text = NotificationMessage::generate_display_text_cn(&notification);
    assert_eq!(text, "李四 邀请 张三 加入了群聊");
}

#[test]
fn test_notification_message_builder() {
    let notification_type = NotificationType::FriendRequestAccepted {
        request_id: 1,
        user_id: 123,
        username: "Alice".to_string(),
        avatar: None,
    };

    let msg = NotificationMessage::new(
        notification_type.clone(),
        "Alice 接受了你的好友请求".to_string(),
        456,
        1,
    )
    .with_notification_id(789)
    .with_persist(true);

    assert_eq!(msg.notification_id, Some(789));
    assert_eq!(msg.channel_id, 456);
    assert!(msg.should_persist);
}

#[test]
fn test_format_duration() {
    assert_eq!(format_duration(30), "30秒");
    assert_eq!(format_duration(120), "2分钟");
    assert_eq!(format_duration(3600), "1小时");
    assert_eq!(format_duration(86400), "1天");
}

#[test]
fn red_packet_amounts_in_yuan() {
    assert_eq!(yuan_string(1234), "12.34");
    assert_eq!(yuan_string(5), "0.05");
    assert_eq!(yuan_string(-150), "-1.50");
    let t = NotificationType::RedPacketReceived {
        red_packet_id: "r".to_string(),
        user_id: 1,
        username: "Bob".to_string(),
        amount: 205,
        timestamp: 0,
    };
    assert_eq!(NotificationMessage::generate_display_text_cn(&t), "Bob 领取了红包（2.05元）");
}

#[test]
fn muted_member_text_and_kind() {
    let t = NotificationType::GroupMemberMuted {
        group_id: 1,
        group_name: "g".to_string(),
        user_id: 2,
        username: "张三".to_string(),
        duration_seconds: 600,
        muted_by: 3,
        muter_name: "李四".to_string(),
        reason: None,
    };
    assert_eq!(NotificationMessage::generate_display_text_cn(&t), "李四 禁言了 张三（10分钟）");
    let m = NotificationMessage::new_at(t, "x".to_string(), 9, 2, 1700000000).with_persist(false);
    assert_eq!(m.type_str(), "group_member_muted");
    assert_eq!(m.timestamp, 1700000000);
    assert!(!m.should_persist);
}
