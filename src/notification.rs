use vstd::prelude::*;
use crate::clock::unix_timestamp_now;
use crate::text::{decimal, decimal_string};

verus! {

/// 系统通知类型枚举
///
/// 用于各种会话中的系统通知消息，如好友请求、群组操作、红包等
#[derive(Debug, Clone)]
pub enum NotificationType {
    // ========== 好友相关 ==========

    /// 好友请求已发送
    FriendRequestSent {
        request_id: u64,
        from_user_id: u64,
        to_user_id: u64,
        message: String,
    },

    /// 好友请求被接受
    FriendRequestAccepted {
        request_id: u64,
        user_id: u64,
        username: String,
        avatar: Option<String>,
    },

    /// 好友请求被拒绝
    FriendRequestRejected {
        request_id: u64,
        user_id: u64,
    },

    /// 好友被删除
    FriendDeleted {
        user_id: u64,
        username: String,
    },

    // ========== 群组相关 ==========

    /// 群组创建
    GroupCreated {
        group_id: u64,
        group_name: String,
        creator_id: u64,
        creator_name: String,
        member_count: u32,
    },

    /// 成员加入群组
    GroupMemberJoined {
        group_id: u64,
        group_name: String,
        user_id: u64,
        username: String,
        invited_by: Option<u64>,
        inviter_name: Option<String>,
    },

    /// 成员离开群组
    GroupMemberLeft {
        group_id: u64,
        group_name: String,
        user_id: u64,
        username: String,
    },

    /// 成员被踢出群组
    GroupMemberKicked {
        group_id: u64,
        group_name: String,
        user_id: u64,
        username: String,
        kicked_by: u64,
        kicker_name: String,
        reason: Option<String>,
    },

    /// 群组名称修改
    GroupNameChanged {
        group_id: u64,
        old_name: String,
        new_name: String,
        changed_by: u64,
        changer_name: String,
    },

    /// 群组头像修改
    GroupAvatarChanged {
        group_id: u64,
        group_name: String,
        changed_by: u64,
        changer_name: String,
        new_avatar_url: String,
    },

    /// 群组公告修改
    GroupAnnouncementChanged {
        group_id: u64,
        group_name: String,
        announcement: String,
        changed_by: u64,
        changer_name: String,
    },

    /// 群主转让
    GroupOwnerTransferred {
        group_id: u64,
        group_name: String,
        old_owner_id: u64,
        old_owner_name: String,
        new_owner_id: u64,
        new_owner_name: String,
    },

    /// 管理员添加
    GroupAdminAdded {
        group_id: u64,
        group_name: String,
        user_id: u64,
        username: String,
        added_by: u64,
        adder_name: String,
    },

    /// 管理员移除
    GroupAdminRemoved {
        group_id: u64,
        group_name: String,
        user_id: u64,
        username: String,
        removed_by: u64,
        remover_name: String,
    },

    /// 成员被禁言
    GroupMemberMuted {
        group_id: u64,
        group_name: String,
        user_id: u64,
        username: String,
        duration_seconds: u64,
        muted_by: u64,
        muter_name: String,
        reason: Option<String>,
    },

    /// 成员解除禁言
    GroupMemberUnmuted {
        group_id: u64,
        group_name: String,
        user_id: u64,
        username: String,
        unmuted_by: u64,
        unmuter_name: String,
    },

    /// 群组被解散
    GroupDismissed {
        group_id: u64,
        group_name: String,
        dismissed_by: u64,
        dismisser_name: String,
    },

    // ========== 红包相关 ==========

    /// 红包发送
    RedPacketSent {
        red_packet_id: String,
        from_user_id: u64,
        from_username: String,
        total_amount: i64,          // 单位：分
        count: u32,                 // 红包个数
        message: String,            // 祝福语
        red_packet_type: RedPacketType,
    },

    /// 红包被领取
    RedPacketReceived {
        red_packet_id: String,
        user_id: u64,
        username: String,
        amount: i64,                // 领取金额（分）
        timestamp: i64,
    },

    /// 红包已抢完
    RedPacketEmpty {
        red_packet_id: String,
        total_received: u32,        // 总共被领取数量
        total_amount: i64,          // 总共被领取金额
    },

    /// 红包过期
    RedPacketExpired {
        red_packet_id: String,
        remaining_count: u32,       // 剩余个数
        remaining_amount: i64,      // 剩余金额
    },

    // ========== 消息相关 ==========

    /// 消息被撤回
    MessageRevoked {
        server_message_id: u64,
        channel_id: u64,
        revoked_by: u64,
        revoker_name: String,
        revoked_at: i64,
    },

    /// 消息被置顶
    MessagePinned {
        server_message_id: u64,
        channel_id: u64,
        pinned_by: u64,
        pinner_name: String,
        pinned_at: i64,
    },

    /// 消息取消置顶
    MessageUnpinned {
        server_message_id: u64,
        channel_id: u64,
        unpinned_by: u64,
        unpinner_name: String,
        unpinned_at: i64,
    },

    /// 消息已读（已读回执）
    MessageRead {
        server_message_id: u64,
        channel_id: u64,
        reader_id: u64,
        reader_name: String,
        read_at: i64,
    },

    /// 消息被编辑
    MessageEdited {
        server_message_id: u64,
        channel_id: u64,
        editor_id: u64,
        editor_name: String,
        old_content: String,
        new_content: String,
        edited_at: i64,
    },

    // ========== 系统相关 ==========

    /// 系统维护通知
    SystemMaintenance {
        title: String,
        content: String,
        start_time: i64,
        end_time: i64,
        level: MaintenanceLevel,
    },

    /// 系统公告
    SystemAnnouncement {
        announcement_id: u64,
        title: String,
        content: String,
        level: AnnouncementLevel,
        published_at: i64,
    },

    /// 版本更新通知
    SystemVersionUpdate {
        version: String,
        description: String,
        update_url: String,
        force_update: bool,
    },
}

/// 红包类型
#[derive(Debug, Clone)]
pub enum RedPacketType {
    /// 普通红包（固定金额）
    Normal,
    /// 拼手气红包（随机金额）
    Lucky,
    /// 专属红包（指定接收人）
    Exclusive { target_user_ids: Vec<u64> },
}

/// 维护级别
#[derive(Debug, Clone)]
pub enum MaintenanceLevel {
    /// 常规维护
    Normal,
    /// 紧急维护
    Urgent,
    /// 计划维护
    Scheduled,
}

/// 公告级别
#[derive(Debug, Clone)]
pub enum AnnouncementLevel {
    /// 信息
    Info,
    /// 警告
    Warning,
    /// 重要
    Important,
    /// 紧急
    Critical,
}

impl NotificationType {
    /// Name of the notification type.
    pub open spec fn kind_name(&self) -> Seq<char> {
        match self {
            NotificationType::FriendRequestSent { .. } => "friend_request_sent"@,
            NotificationType::FriendRequestAccepted { .. } => "friend_request_accepted"@,
            NotificationType::FriendRequestRejected { .. } => "friend_request_rejected"@,
            NotificationType::FriendDeleted { .. } => "friend_deleted"@,
            NotificationType::GroupCreated { .. } => "group_created"@,
            NotificationType::GroupMemberJoined { .. } => "group_member_joined"@,
            NotificationType::GroupMemberLeft { .. } => "group_member_left"@,
            NotificationType::GroupMemberKicked { .. } => "group_member_kicked"@,
            NotificationType::GroupNameChanged { .. } => "group_name_changed"@,
            NotificationType::GroupAvatarChanged { .. } => "group_avatar_changed"@,
            NotificationType::GroupAnnouncementChanged { .. } => "group_announcement_changed"@,
            NotificationType::GroupOwnerTransferred { .. } => "group_owner_transferred"@,
            NotificationType::GroupAdminAdded { .. } => "group_admin_added"@,
            NotificationType::GroupAdminRemoved { .. } => "group_admin_removed"@,
            NotificationType::GroupMemberMuted { .. } => "group_member_muted"@,
            NotificationType::GroupMemberUnmuted { .. } => "group_member_unmuted"@,
            NotificationType::GroupDismissed { .. } => "group_dismissed"@,
            NotificationType::RedPacketSent { .. } => "red_packet_sent"@,
            NotificationType::RedPacketReceived { .. } => "red_packet_received"@,
            NotificationType::RedPacketEmpty { .. } => "red_packet_empty"@,
            NotificationType::RedPacketExpired { .. } => "red_packet_expired"@,
            NotificationType::MessageRevoked { .. } => "message_revoked"@,
            NotificationType::MessagePinned { .. } => "message_pinned"@,
            NotificationType::MessageUnpinned { .. } => "message_unpinned"@,
            NotificationType::MessageRead { .. } => "message_read"@,
            NotificationType::MessageEdited { .. } => "message_edited"@,
            NotificationType::SystemMaintenance { .. } => "system_maintenance"@,
            NotificationType::SystemAnnouncement { .. } => "system_announcement"@,
            NotificationType::SystemVersionUpdate { .. } => "system_version_update"@,
        }
    }
}

/// 通知消息结构
///
/// 封装通知类型和相关元数据，用于在会话中显示系统通知
#[derive(Debug, Clone)]
pub struct NotificationMessage {
    /// 通知ID（可选，用于去重）
    pub notification_id: Option<u64>,

    /// 通知类型
    pub notification_type: NotificationType,

    /// 显示文本（用于UI展示，可以根据语言本地化）
    pub display_text: String,

    /// 时间戳
    pub timestamp: i64,

    /// 所属会话ID
    pub channel_id: u64,

    /// 会话类型（1=私聊, 2=群聊）
    pub channel_type: u8,

    /// 是否需要持久化存储
    pub should_persist: bool,

    /// 额外元数据（可选）
    pub metadata: Option<serde_json::Value>,
}

impl NotificationMessage {
    /// 创建新的通知消息, stamped with the current Unix time (0 when the
    /// clock reads before the epoch).
    pub fn new(
        notification_type: NotificationType,
        display_text: String,
        channel_id: u64,
        channel_type: u8,
    ) -> (r: Self)
        ensures
            r.notification_id is None,
            r.notification_type == notification_type,
            r.display_text == display_text,
            r.channel_id == channel_id,
            r.channel_type == channel_type,
            r.should_persist,
            r.metadata is None,
    {
        let timestamp = unix_timestamp_now();
        Self::new_at(notification_type, display_text, channel_id, channel_type, timestamp)
    }

    /// 创建新的通知消息, stamped with Unix time `timestamp` (seconds).
    pub fn new_at(
        notification_type: NotificationType,
        display_text: String,
        channel_id: u64,
        channel_type: u8,
        timestamp: i64,
    ) -> (r: Self)
        ensures
            r.notification_id is None,
            r.notification_type == notification_type,
            r.display_text == display_text,
            r.timestamp == timestamp,
            r.channel_id == channel_id,
            r.channel_type == channel_type,
            r.should_persist,
            r.metadata is None,
    {
        Self {
            notification_id: None,
            notification_type,
            display_text,
            timestamp,
            channel_id,
            channel_type,
            should_persist: true,
            metadata: None,
        }
    }

    /// 设置通知ID
    pub fn with_notification_id(self, id: u64) -> (r: Self)
        ensures
            r == (Self { notification_id: Some(id), ..self }),
    {
        let mut s = self;
        s.notification_id = Some(id);
        s
    }


    /// 设置是否持久化
    pub fn with_persist(self, persist: bool) -> (r: Self)
        ensures
            r == (Self { should_persist: persist, ..self }),
    {
        let mut s = self;
        s.should_persist = persist;
        s
    }


    /// 设置额外元数据
    pub fn with_metadata(self, metadata: serde_json::Value) -> (r: Self)
        ensures
            r == (Self { metadata: Some(metadata), ..self }),
    {
        let mut s = self;
        s.metadata = Some(metadata);
        s
    }


    /// 获取通知类型的字符串表示
    pub fn type_str(&self) -> (r: &'static str)
        ensures
            r@ == self.notification_type.kind_name(),
    {
        match &self.notification_type {
            NotificationType::FriendRequestSent { .. } => "friend_request_sent",
            NotificationType::FriendRequestAccepted { .. } => "friend_request_accepted",
            NotificationType::FriendRequestRejected { .. } => "friend_request_rejected",
            NotificationType::FriendDeleted { .. } => "friend_deleted",
            NotificationType::GroupCreated { .. } => "group_created",
            NotificationType::GroupMemberJoined { .. } => "group_member_joined",
            NotificationType::GroupMemberLeft { .. } => "group_member_left",
            NotificationType::GroupMemberKicked { .. } => "group_member_kicked",
            NotificationType::GroupNameChanged { .. } => "group_name_changed",
            NotificationType::GroupAvatarChanged { .. } => "group_avatar_changed",
            NotificationType::GroupAnnouncementChanged { .. } => "group_announcement_changed",
            NotificationType::GroupOwnerTransferred { .. } => "group_owner_transferred",
            NotificationType::GroupAdminAdded { .. } => "group_admin_added",
            NotificationType::GroupAdminRemoved { .. } => "group_admin_removed",
            NotificationType::GroupMemberMuted { .. } => "group_member_muted",
            NotificationType::GroupMemberUnmuted { .. } => "group_member_unmuted",
            NotificationType::GroupDismissed { .. } => "group_dismissed",
            NotificationType::RedPacketSent { .. } => "red_packet_sent",
            NotificationType::RedPacketReceived { .. } => "red_packet_received",
            NotificationType::RedPacketEmpty { .. } => "red_packet_empty",
            NotificationType::RedPacketExpired { .. } => "red_packet_expired",
            NotificationType::MessageRevoked { .. } => "message_revoked",
            NotificationType::MessagePinned { .. } => "message_pinned",
            NotificationType::MessageUnpinned { .. } => "message_unpinned",
            NotificationType::MessageRead { .. } => "message_read",
            NotificationType::MessageEdited { .. } => "message_edited",
            NotificationType::SystemMaintenance { .. } => "system_maintenance",
            NotificationType::SystemAnnouncement { .. } => "system_announcement",
            NotificationType::SystemVersionUpdate { .. } => "system_version_update",
        }
    }
}

/// Default display text (Chinese) of a notification.
pub open spec fn display_text_cn(nt: NotificationType) -> Seq<char> {
    match nt {
        NotificationType::FriendRequestAccepted { username, .. } => username@ + " 接受了你的好友请求"@,
        NotificationType::FriendDeleted { username, .. } => username@ + " 删除了你的好友关系"@,
        NotificationType::GroupMemberLeft { username, .. } => username@ + " 离开了群聊"@,
        NotificationType::GroupMemberJoined { username, inviter_name, .. } => match inviter_name {
            Some(inviter) => inviter@ + " 邀请 "@ + username@ + " 加入了群聊"@,
            None => username@ + " 加入了群聊"@,
        },
        NotificationType::GroupMemberKicked { username, kicker_name, reason, .. } => match reason {
            Some(r) => kicker_name@ + " 将 "@ + username@ + " 移出了群聊（原因："@ + r@ + "）"@,
            None => kicker_name@ + " 将 "@ + username@ + " 移出了群聊"@,
        },
        NotificationType::GroupNameChanged { old_name, new_name, changer_name, .. } => changer_name@ + " 将群名称从「"@ + old_name@ + "」改为「"@ + new_name@ + "」"@,
        NotificationType::GroupOwnerTransferred { old_owner_name, new_owner_name, .. } => old_owner_name@ + " 将群主转让给 "@ + new_owner_name@,
        NotificationType::GroupAdminAdded { username, adder_name, .. } => adder_name@ + " 将 "@ + username@ + " 设置为管理员"@,
        NotificationType::GroupMemberMuted { username, muter_name, duration_seconds, .. } => muter_name@ + " 禁言了 "@ + username@ + "（"@ + duration_text(duration_seconds) + "）"@,
        NotificationType::RedPacketSent { from_username, message, .. } => from_username@ + " 发送了红包「"@ + message@ + "」"@,
        NotificationType::RedPacketReceived { username, amount, .. } => username@ + " 领取了红包（"@ + yuan_text(amount) + "元）"@,
        NotificationType::RedPacketEmpty { .. } => "红包已被抢完"@,
        NotificationType::MessageRevoked { revoker_name, .. } => revoker_name@ + " 撤回了一条消息"@,
        NotificationType::MessagePinned { pinner_name, .. } => pinner_name@ + " 置顶了一条消息"@,
        NotificationType::MessageRead { reader_name, .. } => reader_name@ + " 已读"@,
        NotificationType::SystemMaintenance { title, .. } => "系统维护通知："@ + title@,
        NotificationType::SystemAnnouncement { title, .. } => "系统公告："@ + title@,
        _ => "系统通知"@,
    }
}

/// Text of a duration in seconds: seconds under a minute, whole minutes
/// under an hour, whole hours under a day, whole days beyond.
pub open spec fn duration_text(seconds: u64) -> Seq<char> {
    if seconds < 60 {
        decimal(seconds as nat) + "秒"@
    } else if seconds < 3600 {
        decimal((seconds / 60) as nat) + "分钟"@
    } else if seconds < 86400 {
        decimal((seconds / 3600) as nat) + "小时"@
    } else {
        decimal((seconds / 86400) as nat) + "天"@
    }
}

/// The two-digit text of `n` (below 100).
pub open spec fn two_digits(n: nat) -> Seq<char> {
    if n < 10 {
        "0"@ + decimal(n)
    } else {
        decimal(n)
    }
}

/// Magnitude of an amount of cents.
pub open spec fn cents_magnitude(cents: i64) -> nat {
    if cents < 0 {
        (-cents) as nat
    } else {
        cents as nat
    }
}

/// An amount of cents as yuan with two decimals.
pub open spec fn yuan_text(cents: i64) -> Seq<char> {
    let m = cents_magnitude(cents);
    let body = decimal(m / 100) + "."@ + two_digits(m % 100);
    if cents < 0 {
        "-"@ + body
    } else {
        body
    }
}

/// Helpers that build display texts.
impl NotificationMessage {
    /// 根据通知类型生成默认的显示文本（中文）
    pub fn generate_display_text_cn(notification_type: &NotificationType) -> (r: String)
        ensures
            r@ == display_text_cn(*notification_type),
    {
        match notification_type {
            NotificationType::FriendRequestAccepted { username, .. } => {
                let mut s = String::new();
                s.append(username.as_str());
                s.append(" 接受了你的好友请求");
                s
            },
            NotificationType::FriendDeleted { username, .. } => {
                let mut s = String::new();
                s.append(username.as_str());
                s.append(" 删除了你的好友关系");
                s
            },
            NotificationType::GroupMemberLeft { username, .. } => {
                let mut s = String::new();
                s.append(username.as_str());
                s.append(" 离开了群聊");
                s
            },
            NotificationType::GroupMemberJoined { username, inviter_name, .. } => {
                let mut s = String::new();
                match inviter_name {
                    Some(inviter) => {
                        s.append(inviter.as_str());
                        s.append(" 邀请 ");
                        s.append(username.as_str());
                        s.append(" 加入了群聊");
                    },
                    None => {
                        s.append(username.as_str());
                        s.append(" 加入了群聊");
                    },
                }
                s
            },
            NotificationType::GroupMemberKicked { username, kicker_name, reason, .. } => {
                let mut s = String::new();
                s.append(kicker_name.as_str());
                s.append(" 将 ");
                s.append(username.as_str());
                match reason {
                    Some(r) => {
                        s.append(" 移出了群聊（原因：");
                        s.append(r.as_str());
                        s.append("）");
                    },
                    None => {
                        s.append(" 移出了群聊");
                    },
                }
                s
            },
            NotificationType::GroupNameChanged { old_name, new_name, changer_name, .. } => {
                let mut s = String::new();
                s.append(changer_name.as_str());
                s.append(" 将群名称从「");
                s.append(old_name.as_str());
                s.append("」改为「");
                s.append(new_name.as_str());
                s.append("」");
                s
            },
            NotificationType::GroupOwnerTransferred { old_owner_name, new_owner_name, .. } => {
                let mut s = String::new();
                s.append(old_owner_name.as_str());
                s.append(" 将群主转让给 ");
                s.append(new_owner_name.as_str());
                s
            },
            NotificationType::GroupAdminAdded { username, adder_name, .. } => {
                let mut s = String::new();
                s.append(adder_name.as_str());
                s.append(" 将 ");
                s.append(username.as_str());
                s.append(" 设置为管理员");
                s
            },
            NotificationType::GroupMemberMuted { username, muter_name, duration_seconds, .. } => {
                let mut s = String::new();
                s.append(muter_name.as_str());
                s.append(" 禁言了 ");
                s.append(username.as_str());
                s.append("（");
                let t = format_duration(*duration_seconds);
                s.append(t.as_str());
                s.append("）");
                s
            },
            NotificationType::RedPacketSent { from_username, message, .. } => {
                let mut s = String::new();
                s.append(from_username.as_str());
                s.append(" 发送了红包「");
                s.append(message.as_str());
                s.append("」");
                s
            },
            NotificationType::RedPacketReceived { username, amount, .. } => {
                let mut s = String::new();
                s.append(username.as_str());
                s.append(" 领取了红包（");
                let t = yuan_string(*amount);
                s.append(t.as_str());
                s.append("元）");
                s
            },
            NotificationType::RedPacketEmpty { .. } => {
                let mut s = String::new();
                s.append("红包已被抢完");
                s
            },
            NotificationType::MessageRevoked { revoker_name, .. } => {
                let mut s = String::new();
                s.append(revoker_name.as_str());
                s.append(" 撤回了一条消息");
                s
            },
            NotificationType::MessagePinned { pinner_name, .. } => {
                let mut s = String::new();
                s.append(pinner_name.as_str());
                s.append(" 置顶了一条消息");
                s
            },
            NotificationType::MessageRead { reader_name, .. } => {
                let mut s = String::new();
                s.append(reader_name.as_str());
                s.append(" 已读");
                s
            },
            NotificationType::SystemMaintenance { title, .. } => {
                let mut s = String::new();
                s.append("系统维护通知：");
                s.append(title.as_str());
                s
            },
            NotificationType::SystemAnnouncement { title, .. } => {
                let mut s = String::new();
                s.append("系统公告：");
                s.append(title.as_str());
                s
            },
            _ => String::from_str("系统通知"),
        }
    }
}

/// 格式化时长
pub fn format_duration(seconds: u64) -> (r: String)
    ensures
        r@ == duration_text(seconds),
{
    let (n, unit) = if seconds < 60 {
        (seconds, "秒")
    } else if seconds < 3600 {
        (seconds / 60, "分钟")
    } else if seconds < 86400 {
        (seconds / 3600, "小时")
    } else {
        (seconds / 86400, "天")
    };
    let mut s = decimal_string(n);
    s.append(unit);
    s
}

/// An amount of cents as yuan with two decimals ("12.05").
pub fn yuan_string(cents: i64) -> (r: String)
    ensures
        r@ == yuan_text(cents),
{
    let m: u64 = if cents < 0 {
        (-(cents as i128)) as u64
    } else {
        cents as u64
    };
    let mut s = if cents < 0 {
        String::from_str("-")
    } else {
        String::new()
    };
    let whole = decimal_string(m / 100);
    s.append(whole.as_str());
    s.append(".");
    if m % 100 < 10 {
        s.append("0");
    }
    let frac = decimal_string(m % 100);
    s.append(frac.as_str());
    s
}

} // verus!
