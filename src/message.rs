use vstd::prelude::*;
use std::collections::HashMap;

verus! {

use num_bigint::BigInt;
use crate::bignum::zero_bigint;
use crate::text::{decimal, decimal_string};
use crate::clock::unix_seconds_now;

/// 消息基础trait
pub trait Message {
    /// The message type of a value, as the contracts speak of it.
    spec fn message_type_spec(&self) -> MessageType;

    /// 获取消息类型
    fn message_type(&self) -> (r: MessageType)
        ensures
            r == self.message_type_spec(),
    ;
}

/// 消息类型枚举
#[derive(Debug, Clone, Copy, PartialEq, Eq, Hash, Structural)]
pub enum MessageType {
    /// 连接请求 - 客户端发起连接
    ConnectRequest,
    /// 连接响应 - 服务端连接确认
    ConnectResponse,
    /// 断开连接请求 - 客户端主动断开
    DisconnectRequest,
    /// 断开连接响应 - 服务端断开确认
    DisconnectResponse,
    /// 发送消息请求 - 客户端发送消息
    SendRequest,
    /// 发送消息响应 - 服务端发送确认
    SendResponse,
    /// 接收消息请求 - 服务端推送消息
    RecvRequest,
    /// 接收消息响应 - 客户端接收确认
    RecvResponse,
    /// 批量接收消息请求 - 服务端批量推送消息
    RecvBatchRequest,
    /// 批量接收消息响应 - 客户端批量接收确认
    RecvBatchResponse,
    /// 心跳请求 - 客户端发送心跳
    PingRequest,
    /// 心跳响应 - 服务端心跳回复
    PongResponse,
    /// 订阅请求 - 客户端订阅频道
    SubscribeRequest,
    /// 订阅响应 - 服务端订阅确认
    SubscribeResponse,
    /// 推送消息请求 - 服务端推送频道消息
    PublishRequest,
    /// 推送消息响应 - 客户端推送确认
    PublishResponse,
}



/// The message type with wire code `v`; an unknown code reads as
/// `ConnectRequest`.
pub open spec fn message_type_from_code(v: u8) -> MessageType {
    if v == 1 {
        MessageType::ConnectRequest
    } else if v == 2 {
        MessageType::ConnectResponse
    } else if v == 3 {
        MessageType::DisconnectRequest
    } else if v == 4 {
        MessageType::DisconnectResponse
    } else if v == 5 {
        MessageType::SendRequest
    } else if v == 6 {
        MessageType::SendResponse
    } else if v == 7 {
        MessageType::RecvRequest
    } else if v == 8 {
        MessageType::RecvResponse
    } else if v == 9 {
        MessageType::RecvBatchRequest
    } else if v == 10 {
        MessageType::RecvBatchResponse
    } else if v == 11 {
        MessageType::PingRequest
    } else if v == 12 {
        MessageType::PongResponse
    } else if v == 13 {
        MessageType::SubscribeRequest
    } else if v == 14 {
        MessageType::SubscribeResponse
    } else if v == 15 {
        MessageType::PublishRequest
    } else if v == 16 {
        MessageType::PublishResponse
    } else {
        MessageType::ConnectRequest
    }
}

impl MessageType {
    /// Wire code of the message type.
    pub open spec fn code_spec(self) -> u8 {
        match self {
            MessageType::ConnectRequest => 1,
            MessageType::ConnectResponse => 2,
            MessageType::DisconnectRequest => 3,
            MessageType::DisconnectResponse => 4,
            MessageType::SendRequest => 5,
            MessageType::SendResponse => 6,
            MessageType::RecvRequest => 7,
            MessageType::RecvResponse => 8,
            MessageType::RecvBatchRequest => 9,
            MessageType::RecvBatchResponse => 10,
            MessageType::PingRequest => 11,
            MessageType::PongResponse => 12,
            MessageType::SubscribeRequest => 13,
            MessageType::SubscribeResponse => 14,
            MessageType::PublishRequest => 15,
            MessageType::PublishResponse => 16,
        }
    }
}

impl From<u8> for MessageType {
    fn from(value: u8) -> Self {
        match value {
            1 => MessageType::ConnectRequest,
            2 => MessageType::ConnectResponse,
            3 => MessageType::DisconnectRequest,
            4 => MessageType::DisconnectResponse,
            5 => MessageType::SendRequest,
            6 => MessageType::SendResponse,
            7 => MessageType::RecvRequest,
            8 => MessageType::RecvResponse,
            9 => MessageType::RecvBatchRequest,
            10 => MessageType::RecvBatchResponse,
            11 => MessageType::PingRequest,
            12 => MessageType::PongResponse,
            13 => MessageType::SubscribeRequest,
            14 => MessageType::SubscribeResponse,
            15 => MessageType::PublishRequest,
            16 => MessageType::PublishResponse,
            _ => MessageType::ConnectRequest,
        }
    }
}

impl vstd::std_specs::convert::FromSpecImpl<u8> for MessageType {
    open spec fn obeys_from_spec() -> bool {
        true
    }

    open spec fn from_spec(v: u8) -> MessageType {
        message_type_from_code(v)
    }
}

impl From<MessageType> for u8 {
    fn from(msg_type: MessageType) -> Self {
        match msg_type {
            MessageType::ConnectRequest => 1,
            MessageType::ConnectResponse => 2,
            MessageType::DisconnectRequest => 3,
            MessageType::DisconnectResponse => 4,
            MessageType::SendRequest => 5,
            MessageType::SendResponse => 6,
            MessageType::RecvRequest => 7,
            MessageType::RecvResponse => 8,
            MessageType::RecvBatchRequest => 9,
            MessageType::RecvBatchResponse => 10,
            MessageType::PingRequest => 11,
            MessageType::PongResponse => 12,
            MessageType::SubscribeRequest => 13,
            MessageType::SubscribeResponse => 14,
            MessageType::PublishRequest => 15,
            MessageType::PublishResponse => 16,
        }
    }
}

impl vstd::std_specs::convert::FromSpecImpl<MessageType> for u8 {
    open spec fn obeys_from_spec() -> bool {
        true
    }

    open spec fn from_spec(v: MessageType) -> u8 {
        v.code_spec()
    }
}

/// 消息设置
#[derive(Debug, Clone, Default)]
pub struct MessageSetting {
    pub need_receipt: bool,
    pub signal: u8,
}

impl MessageSetting {
    /// An empty value: every field at its default.
    pub fn new() -> (r: Self)
        ensures
            !r.need_receipt,
            r.signal == 0,
    {
        MessageSetting {
            need_receipt: false,
            signal: 0,
        }
    }
}

/// 数据包结构
#[derive(Debug, Clone)]
pub struct Packet<T: Message> {
    pub message_type: MessageType,
    pub body: T,
}

impl<T: Message> Packet<T> {
    pub fn new(message_type: MessageType, body: T) -> (r: Self)
        ensures
            r.message_type == message_type,
            r.body == body,
    {
        Self {
            message_type,
            body,
        }
    }
}

/// 连接请求
#[derive(Debug, Clone)]
pub struct ConnectRequest {
    /// 认证类型
    pub auth_type: AuthType,
    /// 认证令牌
    pub auth_token: String,
    /// 客户端信息
    pub client_info: ClientInfo,
    /// 设备信息
    pub device_info: DeviceInfo,
    /// 协议版本
    pub protocol_version: String,
    /// 扩展属性
    pub properties: HashMap<String, String>,
}

/// 连接响应
#[derive(Debug, Clone)]
pub struct ConnectResponse {
    /// 连接是否成功
    pub success: bool,
    /// 错误码
    pub error_code: Option<String>,
    /// 错误信息
    pub error_message: Option<String>,
    /// 会话ID
    pub session_id: Option<String>,
    /// 用户ID
    pub user_id: Option<String>,
    /// 服务器分配的连接ID
    pub connection_id: Option<String>,
    /// 服务器信息
    pub server_info: Option<ServerInfo>,
    /// 心跳间隔（秒）
    pub heartbeat_interval: Option<u64>,
}

/// 认证类型
#[derive(Debug, Clone)]
pub enum AuthType {
    /// JWT令牌认证
    JWT,
    /// 用户名密码认证
    UserPassword,
    /// 第三方OAuth认证
    OAuth,
    /// 匿名认证
    Anonymous,
}

/// 客户端信息
#[derive(Debug, Clone)]
pub struct ClientInfo {
    /// 客户端类型
    pub client_type: String,
    /// 客户端版本
    pub version: String,
    /// 操作系统
    pub os: String,
    /// 操作系统版本
    pub os_version: String,
    /// 设备型号
    pub device_model: Option<String>,
    /// 应用包名
    pub app_package: Option<String>,
}

/// 设备信息
#[derive(Debug, Clone)]
pub struct DeviceInfo {
    /// 设备ID
    pub device_id: String,
    /// 设备名称
    pub device_name: String,
    /// 设备类型
    pub device_type: DeviceType,
    /// 推送令牌
    pub push_token: Option<String>,
    /// 设备指纹
    pub device_fingerprint: Option<String>,
}

/// 设备类型
#[derive(Debug, Clone, PartialEq, Eq, Hash)]
pub enum DeviceType {
    Mobile,
    Desktop,
    Web,
    Tablet,
    IoT,
    Unknown,
}

/// 服务器信息
#[derive(Debug, Clone)]
pub struct ServerInfo {
    /// 服务器版本
    pub version: String,
    /// 服务器名称
    pub name: String,
    /// 支持的功能
    pub features: Vec<String>,
    /// 最大消息大小
    pub max_message_size: u64,
    /// 连接超时时间
    pub connection_timeout: u64,
}

/// 断开连接请求
#[derive(Debug, Clone)]
pub struct DisconnectRequest {
    /// 断开原因
    pub reason: DisconnectReason,
    /// 附加信息
    pub message: Option<String>,
}

/// 断开连接响应
#[derive(Debug, Clone)]
pub struct DisconnectResponse {
    /// 确认断开
    pub acknowledged: bool,
}

/// 断开连接原因
#[derive(Debug, Clone)]
pub enum DisconnectReason {
    /// 用户主动断开
    UserInitiated,
    /// 服务器关闭
    ServerShutdown,
    /// 认证失败
    AuthenticationFailed,
    /// 协议错误
    ProtocolError,
    /// 超时
    Timeout,
    /// 重复连接
    DuplicateConnection,
    /// 服务器维护
    ServerMaintenance,
}

/// 通用消息包装器
#[derive(Debug, Clone)]
pub struct MessagePacket {
    /// 消息类型
    pub message_type: String,
    /// 消息ID
    pub message_id: Option<String>,
    /// 时间戳
    pub timestamp: u64,
    /// 消息体
    pub payload: serde_json::Value,
    /// 扩展头部
    pub headers: HashMap<String, String>,
}

/// 错误响应
#[derive(Debug, Clone)]
pub struct ErrorResponse {
    /// 错误码
    pub error_code: String,
    /// 错误信息
    pub error_message: String,
    /// 错误详情
    pub error_details: Option<HashMap<String, String>>,
    /// 时间戳
    pub timestamp: u64,
}

/// 发送消息
#[derive(Debug, Clone, Default)]
pub struct SendRequest {
    pub setting: MessageSetting,
    pub client_seq: u32,
    pub client_msg_no: String,
    pub stream_no: String,
    pub channel_id: String,
    pub channel_type: u8,
    pub expire: u32,
    pub from_uid: String,
    pub topic: String,
    pub payload: Vec<u8>,
}

impl SendRequest {
    /// An empty value: every field at its default.
    pub fn new() -> (r: Self)
        ensures
            !r.setting.need_receipt && r.setting.signal == 0,
            r.client_seq == 0,
            r.client_msg_no@ == Seq::<char>::empty(),
            r.stream_no@ == Seq::<char>::empty(),
            r.channel_id@ == Seq::<char>::empty(),
            r.channel_type == 0,
            r.expire == 0,
            r.from_uid@ == Seq::<char>::empty(),
            r.topic@ == Seq::<char>::empty(),
            r.payload@.len() == 0,
    {
        SendRequest {
            setting: MessageSetting::new(),
            client_seq: 0,
            client_msg_no: String::new(),
            stream_no: String::new(),
            channel_id: String::new(),
            channel_type: 0,
            expire: 0,
            from_uid: String::new(),
            topic: String::new(),
            payload: Vec::new(),
        }
    }

    pub fn create_packet(self) -> (r: Packet<Self>)
        ensures
            r.message_type == MessageType::SendRequest,
            r.message_type == self.message_type_spec(),
            r.body == self,
    {
        Packet::new(MessageType::SendRequest, self)
    }

    pub fn verify_string(&self) -> (r: String)
        ensures
            r@ == self.client_msg_no@ + ":"@ + self.channel_id@ + ":"@ + self.from_uid@,
    {
        let mut s = self.client_msg_no.clone();
        s.append(":");
        s.append(self.channel_id.as_str());
        s.append(":");
        s.append(self.from_uid.as_str());
        s
    }
}

/// 发送确认消息
#[derive(Debug, Clone, Default)]
pub struct SendResponse {
    pub client_seq: u32,
    pub message_id: BigInt,
    pub message_seq: u32,
    pub reason_code: u8,
}

impl SendResponse {
    /// An empty value: every field at its default.
    pub fn new() -> (r: Self)
        ensures
            r.client_seq == 0,
            r.message_seq == 0,
            r.reason_code == 0,
    {
        SendResponse {
            client_seq: 0,
            message_id: zero_bigint(),
            message_seq: 0,
            reason_code: 0,
        }
    }

    pub fn create_packet(self) -> (r: Packet<Self>)
        ensures
            r.message_type == MessageType::SendResponse,
            r.message_type == self.message_type_spec(),
            r.body == self,
    {
        Packet::new(MessageType::SendResponse, self)
    }
}

/// 接收消息
#[derive(Debug, Clone, Default)]
pub struct RecvRequest {
    pub setting: MessageSetting,
    pub msg_key: String,
    pub message_id: BigInt,
    pub message_seq: u32,
    pub client_msg_no: String,
    pub stream_no: String,
    pub stream_seq: u32,
    pub stream_flag: u8,
    pub timestamp: u32,
    pub channel_id: String,
    pub channel_type: u8,
    pub expire: u32,
    pub topic: String,
    pub from_uid: String,
    pub payload: Vec<u8>,
}

impl RecvRequest {
    /// An empty value: every field at its default.
    pub fn new() -> (r: Self)
        ensures
            !r.setting.need_receipt && r.setting.signal == 0,
            r.msg_key@ == Seq::<char>::empty(),
            r.message_seq == 0,
            r.client_msg_no@ == Seq::<char>::empty(),
            r.stream_no@ == Seq::<char>::empty(),
            r.stream_seq == 0,
            r.stream_flag == 0,
            r.timestamp == 0,
            r.channel_id@ == Seq::<char>::empty(),
            r.channel_type == 0,
            r.expire == 0,
            r.topic@ == Seq::<char>::empty(),
            r.from_uid@ == Seq::<char>::empty(),
            r.payload@.len() == 0,
    {
        RecvRequest {
            setting: MessageSetting::new(),
            msg_key: String::new(),
            message_id: zero_bigint(),
            message_seq: 0,
            client_msg_no: String::new(),
            stream_no: String::new(),
            stream_seq: 0,
            stream_flag: 0,
            timestamp: 0,
            channel_id: String::new(),
            channel_type: 0,
            expire: 0,
            topic: String::new(),
            from_uid: String::new(),
            payload: Vec::new(),
        }
    }

    pub fn create_packet(self) -> (r: Packet<Self>)
        ensures
            r.message_type == MessageType::RecvRequest,
            r.message_type == self.message_type_spec(),
            r.body == self,
    {
        Packet::new(MessageType::RecvRequest, self)
    }

    pub fn verify_string(&self) -> (r: String)
        ensures
            exists|id: Seq<char>| r@ == id + ":"@ + self.channel_id@ + ":"@ + self.from_uid@,
    {
        let mut s = crate::bignum::bigint_text(&self.message_id);
        let ghost id = s@;
        s.append(":");
        s.append(self.channel_id.as_str());
        s.append(":");
        s.append(self.from_uid.as_str());
        assert(s@ == id + ":"@ + self.channel_id@ + ":"@ + self.from_uid@);
        s
    }
}

/// 接收确认消息
#[derive(Debug, Clone, Default)]
pub struct RecvResponse {
    pub succeed: bool,
    pub message: Option<String>,
}

impl RecvResponse {
    /// An empty value: every field at its default.
    pub fn new() -> (r: Self)
        ensures
            !r.succeed,
            r.message is None,
    {
        RecvResponse {
            succeed: false,
            message: None,
        }
    }

    pub fn create_packet(self) -> (r: Packet<Self>)
        ensures
            r.message_type == MessageType::RecvResponse,
            r.message_type == self.message_type_spec(),
            r.body == self,
    {
        Packet::new(MessageType::RecvResponse, self)
    }
}

/// 心跳消息
#[derive(Debug, Clone, Default)]
pub struct PingRequest {
    pub timestamp: i64,
}

impl PingRequest {
    /// An empty value: every field at its default.
    pub fn new() -> (r: Self)
        ensures
            r.timestamp == 0,
    {
        PingRequest {
            timestamp: 0,
        }
    }

    pub fn create_packet(self) -> (r: Packet<Self>)
        ensures
            r.message_type == MessageType::PingRequest,
            r.message_type == self.message_type_spec(),
            r.body == self,
    {
        Packet::new(MessageType::PingRequest, self)
    }
}

/// 心跳回复消息
#[derive(Debug, Clone, Default)]
pub struct PongResponse {
    pub timestamp: i64,
}

impl PongResponse {
    /// An empty value: every field at its default.
    pub fn new() -> (r: Self)
        ensures
            r.timestamp == 0,
    {
        PongResponse {
            timestamp: 0,
        }
    }

    pub fn create_packet(self) -> (r: Packet<Self>)
        ensures
            r.message_type == MessageType::PongResponse,
            r.message_type == self.message_type_spec(),
            r.body == self,
    {
        Packet::new(MessageType::PongResponse, self)
    }
}


/// 订阅消息
#[derive(Debug, Clone, Default)]
pub struct SubscribeRequest {
    pub setting: u8,
    pub client_msg_no: String,
    pub channel_id: String,
    pub channel_type: u8,
    pub action: u8,
    pub param: String,
}

impl SubscribeRequest {
    /// An empty value: every field at its default.
    pub fn new() -> (r: Self)
        ensures
            r.setting == 0,
            r.client_msg_no@ == Seq::<char>::empty(),
            r.channel_id@ == Seq::<char>::empty(),
            r.channel_type == 0,
            r.action == 0,
            r.param@ == Seq::<char>::empty(),
    {
        SubscribeRequest {
            setting: 0,
            client_msg_no: String::new(),
            channel_id: String::new(),
            channel_type: 0,
            action: 0,
            param: String::new(),
        }
    }

    pub fn create_packet(self) -> (r: Packet<Self>)
        ensures
            r.message_type == MessageType::SubscribeRequest,
            r.message_type == self.message_type_spec(),
            r.body == self,
    {
        Packet::new(MessageType::SubscribeRequest, self)
    }
}

/// 订阅确认消息
#[derive(Debug, Clone, Default)]
pub struct SubscribeResponse {
    pub client_msg_no: String,
    pub channel_id: String,
    pub channel_type: u8,
    pub action: u8,
    pub reason_code: u8,
}

impl SubscribeResponse {
    /// An empty value: every field at its default.
    pub fn new() -> (r: Self)
        ensures
            r.client_msg_no@ == Seq::<char>::empty(),
            r.channel_id@ == Seq::<char>::empty(),
            r.channel_type == 0,
            r.action == 0,
            r.reason_code == 0,
    {
        SubscribeResponse {
            client_msg_no: String::new(),
            channel_id: String::new(),
            channel_type: 0,
            action: 0,
            reason_code: 0,
        }
    }

    pub fn create_packet(self) -> (r: Packet<Self>)
        ensures
            r.message_type == MessageType::SubscribeResponse,
            r.message_type == self.message_type_spec(),
            r.body == self,
    {
        Packet::new(MessageType::SubscribeResponse, self)
    }
}

/// 批量接收消息 - 用于服务器向客户端批量推送消息
#[derive(Debug, Clone, Default)]
pub struct RecvBatchRequest {
    /// 批量消息列表
    pub messages: Vec<RecvRequest>
}

impl RecvBatchRequest {
    /// An empty value: every field at its default.
    pub fn new() -> (r: Self)
        ensures
            r.messages@.len() == 0,
    {
        RecvBatchRequest {
            messages: Vec::new(),
        }
    }

    pub fn create_packet(self) -> (r: Packet<Self>)
        ensures
            r.message_type == MessageType::RecvBatchRequest,
            r.message_type == self.message_type_spec(),
            r.body == self,
    {
        Packet::new(MessageType::RecvBatchRequest, self)
    }

    /// 创建单个批次的批量消息
    pub fn single_batch(messages: Vec<RecvRequest>) -> (r: Self)
        ensures
            r.messages == messages,
    {
        Self {
            messages,
        }
    }

    /// 创建多批次中的一个批次
    pub fn multi_batch(messages: Vec<RecvRequest>) -> (r: Self)
        ensures
            r.messages == messages,
    {
        Self {
            messages,
        }
    }

    /// 获取消息数量
    pub fn message_count(&self) -> (r: usize)
        ensures
            r == self.messages@.len(),
    {
        self.messages.len()
    }

    /// 检查是否为空批次
    pub fn is_empty(&self) -> (r: bool)
        ensures
            r == (self.messages@.len() == 0),
    {
        self.messages.is_empty()
    }
}

/// 批量接收确认消息（客户端 → 服务端）
#[derive(Debug, Clone, Default)]
pub struct RecvBatchResponse {
    pub succeed: bool,
    pub message: Option<String>,
}

impl RecvBatchResponse {
    /// An empty value: every field at its default.
    pub fn new() -> (r: Self)
        ensures
            !r.succeed,
            r.message is None,
    {
        RecvBatchResponse {
            succeed: false,
            message: None,
        }
    }

    pub fn create_packet(self) -> (r: Packet<Self>)
        ensures
            r.message_type == MessageType::RecvBatchResponse,
            r.message_type == self.message_type_spec(),
            r.body == self,
    {
        Packet::new(MessageType::RecvBatchResponse, self)
    }

    /// 创建成功确认
    pub fn success() -> (r: Self)
        ensures
            r.succeed,
            r.message is Some && r.message->0@ == "批量消息接收成功"@,
    {
        Self {
            succeed: true,
            message: Some(String::from_str("批量消息接收成功")),
        }
    }

    /// 创建失败确认
    pub fn failure(error_msg: &str) -> (r: Self)
        ensures
            !r.succeed,
            r.message is Some && r.message->0@ == error_msg@,
    {
        Self {
            succeed: false,
            message: Some(String::from_str(error_msg)),
        }
    }
}


/// 频道推送消息（服务端 → 客户端广播）
#[derive(Debug, Clone, Default)]
pub struct PublishRequest {
    pub channel_id: String,        // 频道ID
    pub topic: Option<String>,     // 主题/标签（可选）
    pub timestamp: u64,            // 推送时间戳
    pub payload: Vec<u8>,          // 消息内容
    pub publisher: Option<String>, // 发布者（可选，可能是系统/机器人）
    pub message_id: Option<String>, // 消息ID（用于去重）
}

impl PublishRequest {
    /// An empty value: every field at its default.
    pub fn new() -> (r: Self)
        ensures
            r.channel_id@ == Seq::<char>::empty(),
            r.topic is None,
            r.timestamp == 0,
            r.payload@.len() == 0,
            r.publisher is None,
            r.message_id is None,
    {
        PublishRequest {
            channel_id: String::new(),
            topic: None,
            timestamp: 0,
            payload: Vec::new(),
            publisher: None,
            message_id: None,
        }
    }

    pub fn create_packet(self) -> (r: Packet<Self>)
        ensures
            r.message_type == MessageType::PublishRequest,
            r.message_type == self.message_type_spec(),
            r.body == self,
    {
        Packet::new(MessageType::PublishRequest, self)
    }

    /// `r` is a system push to `channel_id` at Unix time `timestamp`.
    pub open spec fn is_system_push(r: Self, channel_id: Seq<char>, payload: Vec<u8>, timestamp: u64) -> bool {
        &&& r.channel_id@ == channel_id
        &&& r.topic is None
        &&& r.timestamp == timestamp
        &&& r.payload == payload
        &&& r.publisher is Some && r.publisher->0@ == "system"@
        &&& r.message_id is Some && r.message_id->0@ == "sys_"@ + channel_id + "_"@ + decimal(timestamp as nat)
    }

    /// `r` is a push on `topic` to `channel_id` at Unix time `timestamp`.
    pub open spec fn is_topic_push(r: Self, channel_id: Seq<char>, topic: Seq<char>, payload: Vec<u8>, timestamp: u64) -> bool {
        &&& r.channel_id@ == channel_id
        &&& r.topic is Some && r.topic->0@ == topic
        &&& r.timestamp == timestamp
        &&& r.payload == payload
        &&& r.publisher is None
        &&& r.message_id is Some && r.message_id->0@ == "topic_"@ + topic + "_"@ + decimal(timestamp as nat)
    }

    /// 创建系统推送消息: a system push to `channel_id` at Unix time `timestamp` (seconds).
    pub fn system_push_at(channel_id: &str, payload: Vec<u8>, timestamp: u64) -> (r: Self)
        ensures
            Self::is_system_push(r, channel_id@, payload, timestamp),
    {
        let mut message_id = String::from_str("sys_");
        message_id.append(channel_id);
        message_id.append("_");
        let digits = decimal_string(timestamp);
        message_id.append(digits.as_str());
        Self {
            channel_id: String::from_str(channel_id),
            topic: None,
            timestamp,
            payload,
            publisher: Some(String::from_str("system")),
            message_id: Some(message_id),
        }
    }

    /// A system push to `channel_id`, stamped with the current time (0 when
    /// the clock reads before the Unix epoch).
    pub fn system_push(channel_id: &str, payload: Vec<u8>) -> (r: Self)
        ensures
            exists|t: u64| Self::is_system_push(r, channel_id@, payload, t),
    {
        let timestamp = unix_seconds_now();
        Self::system_push_at(channel_id, payload, timestamp)
    }

    /// A push on `topic` to `channel_id` at Unix time `timestamp` (seconds).
    pub fn topic_push_at(channel_id: &str, topic: &str, payload: Vec<u8>, timestamp: u64) -> (r: Self)
        ensures
            Self::is_topic_push(r, channel_id@, topic@, payload, timestamp),
    {
        let mut message_id = String::from_str("topic_");
        message_id.append(topic);
        message_id.append("_");
        let digits = decimal_string(timestamp);
        message_id.append(digits.as_str());
        Self {
            channel_id: String::from_str(channel_id),
            topic: Some(String::from_str(topic)),
            timestamp,
            payload,
            publisher: None,
            message_id: Some(message_id),
        }
    }

    /// A push on `topic` to `channel_id`, stamped with the current time (0
    /// when the clock reads before the Unix epoch).
    pub fn topic_push(channel_id: &str, topic: &str, payload: Vec<u8>) -> (r: Self)
        ensures
            exists|t: u64| Self::is_topic_push(r, channel_id@, topic@, payload, t),
    {
        let timestamp = unix_seconds_now();
        Self::topic_push_at(channel_id, topic, payload, timestamp)
    }
}

/// 推送确认消息（客户端 → 服务端）
#[derive(Debug, Clone, Default)]
pub struct PublishResponse {
    pub succeed: bool,
    pub message: Option<String>,
}

impl PublishResponse {
    /// An empty value: every field at its default.
    pub fn new() -> (r: Self)
        ensures
            !r.succeed,
            r.message is None,
    {
        PublishResponse {
            succeed: false,
            message: None,
        }
    }

    pub fn create_packet(self) -> (r: Packet<Self>)
        ensures
            r.message_type == MessageType::PublishResponse,
            r.message_type == self.message_type_spec(),
            r.body == self,
    {
        Packet::new(MessageType::PublishResponse, self)
    }

    /// 创建成功确认
    pub fn success() -> (r: Self)
        ensures
            r.succeed,
            r.message is Some && r.message->0@ == "推送消息接收成功"@,
    {
        Self {
            succeed: true,
            message: Some(String::from_str("推送消息接收成功")),
        }
    }

    /// 创建失败确认
    pub fn failure(error_msg: &str) -> (r: Self)
        ensures
            !r.succeed,
            r.message is Some && r.message->0@ == error_msg@,
    {
        Self {
            succeed: false,
            message: Some(String::from_str(error_msg)),
        }
    }
}

// 为所有消息类型实现 Message trait
impl Message for ConnectRequest {
    open spec fn message_type_spec(&self) -> MessageType {
        MessageType::ConnectRequest
    }

    fn message_type(&self) -> MessageType {
        MessageType::ConnectRequest
    }
}

impl Message for ConnectResponse {
    open spec fn message_type_spec(&self) -> MessageType {
        MessageType::ConnectResponse
    }

    fn message_type(&self) -> MessageType {
        MessageType::ConnectResponse
    }
}

impl Message for SendRequest {
    open spec fn message_type_spec(&self) -> MessageType {
        MessageType::SendRequest
    }

    fn message_type(&self) -> MessageType {
        MessageType::SendRequest
    }
}

impl Message for SendResponse {
    open spec fn message_type_spec(&self) -> MessageType {
        MessageType::SendResponse
    }

    fn message_type(&self) -> MessageType {
        MessageType::SendResponse
    }
}

impl Message for RecvRequest {
    open spec fn message_type_spec(&self) -> MessageType {
        MessageType::RecvRequest
    }

    fn message_type(&self) -> MessageType {
        MessageType::RecvRequest
    }
}

impl Message for RecvResponse {
    open spec fn message_type_spec(&self) -> MessageType {
        MessageType::RecvResponse
    }

    fn message_type(&self) -> MessageType {
        MessageType::RecvResponse
    }
}

impl Message for PingRequest {
    open spec fn message_type_spec(&self) -> MessageType {
        MessageType::PingRequest
    }

    fn message_type(&self) -> MessageType {
        MessageType::PingRequest
    }
}

impl Message for PongResponse {
    open spec fn message_type_spec(&self) -> MessageType {
        MessageType::PongResponse
    }

    fn message_type(&self) -> MessageType {
        MessageType::PongResponse
    }
}

impl Message for DisconnectRequest {
    open spec fn message_type_spec(&self) -> MessageType {
        MessageType::DisconnectRequest
    }

    fn message_type(&self) -> MessageType {
        MessageType::DisconnectRequest
    }
}

impl Message for SubscribeRequest {
    open spec fn message_type_spec(&self) -> MessageType {
        MessageType::SubscribeRequest
    }

    fn message_type(&self) -> MessageType {
        MessageType::SubscribeRequest
    }
}

impl Message for SubscribeResponse {
    open spec fn message_type_spec(&self) -> MessageType {
        MessageType::SubscribeResponse
    }

    fn message_type(&self) -> MessageType {
        MessageType::SubscribeResponse
    }
}

impl Message for RecvBatchRequest {
    open spec fn message_type_spec(&self) -> MessageType {
        MessageType::RecvBatchRequest
    }

    fn message_type(&self) -> MessageType {
        MessageType::RecvBatchRequest
    }
}

impl Message for RecvBatchResponse {
    open spec fn message_type_spec(&self) -> MessageType {
        MessageType::RecvBatchResponse
    }

    fn message_type(&self) -> MessageType {
        MessageType::RecvBatchResponse
    }
}

impl Message for DisconnectResponse {
    open spec fn message_type_spec(&self) -> MessageType {
        MessageType::DisconnectResponse
    }

    fn message_type(&self) -> MessageType {
        MessageType::DisconnectResponse
    }
}

impl Message for PublishRequest {
    open spec fn message_type_spec(&self) -> MessageType {
        MessageType::PublishRequest
    }

    fn message_type(&self) -> MessageType {
        MessageType::PublishRequest
    }
}

impl Message for PublishResponse {
    open spec fn message_type_spec(&self) -> MessageType {
        MessageType::PublishResponse
    }

    fn message_type(&self) -> MessageType {
        MessageType::PublishResponse
    }
}

} // verus!
