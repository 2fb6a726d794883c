use vstd::prelude::*;
use std::collections::HashMap;

verus! {

use crate::json::json_null;
use crate::text::{lower_of, lowercase};
use crate::text::{decimal, decimal_string};
use crate::clock::unix_seconds_now;

/// 消息基础trait
pub trait Message {
    /// The message type of a value, as the contracts speak of it.
    spec fn message_type_spec(&self) -> MessageType;

    /// 获取消息类型
    fn message_type(&self) -> (r: MessageType)
        ensures
            r == self.message_type_spec(),
    ;
}

/// 消息类型枚举
#[derive(Debug, Clone, Copy, PartialEq, Eq, Hash, Structural)]
pub enum MessageType {
    /// 连接请求 - 客户端发起连接
    AuthorizationRequest,
    /// 连接响应 - 服务端连接确认
    AuthorizationResponse,
    /// 断开连接请求 - 客户端主动断开
    DisconnectRequest,
    /// 断开连接响应 - 服务端断开确认
    DisconnectResponse,
    /// 发送消息请求 - 客户端发送消息
    SendMessageRequest,
    /// 发送消息响应 - 服务端发送确认
    SendMessageResponse,
    /// 推送消息请求 - 服务端推送消息
    PushMessageRequest,
    /// 推送消息响应 - 客户端接收确认
    PushMessageResponse,
    /// 批量接收消息请求 - 服务端批量推送消息
    PushBatchRequest,
    /// 批量接收消息响应 - 客户端批量接收确认
    PushBatchResponse,
    /// 心跳请求 - 客户端发送心跳
    PingRequest,
    /// 心跳响应 - 服务端心跳回复
    PongResponse,
    /// 订阅请求 - 客户端订阅频道
    SubscribeRequest,
    /// 订阅响应 - 服务端订阅确认
    SubscribeResponse,
    /// 推送消息请求 - 服务端推送频道消息
    PublishRequest,
    /// 推送消息响应 - 客户端推送确认
    PublishResponse,
    /// RPC消息请求 - 客户端发送RPC消息
    RpcRequest,
    /// RPC消息响应 - 服务端发送RPC消息
    RpcResponse,
}



/// The message type with wire code `v`; an unknown code reads as
/// `AuthorizationRequest`.
pub open spec fn message_type_from_code(v: u8) -> MessageType {
    if v == 1 {
        MessageType::AuthorizationRequest
    } else if v == 2 {
        MessageType::AuthorizationResponse
    } else if v == 3 {
        MessageType::DisconnectRequest
    } else if v == 4 {
        MessageType::DisconnectResponse
    } else if v == 5 {
        MessageType::SendMessageRequest
    } else if v == 6 {
        MessageType::SendMessageResponse
    } else if v == 7 {
        MessageType::PushMessageRequest
    } else if v == 8 {
        MessageType::PushMessageResponse
    } else if v == 9 {
        MessageType::PushBatchRequest
    } else if v == 10 {
        MessageType::PushBatchResponse
    } else if v == 11 {
        MessageType::PingRequest
    } else if v == 12 {
        MessageType::PongResponse
    } else if v == 13 {
        MessageType::SubscribeRequest
    } else if v == 14 {
        MessageType::SubscribeResponse
    } else if v == 15 {
        MessageType::PublishRequest
    } else if v == 16 {
        MessageType::PublishResponse
    } else if v == 17 {
        MessageType::RpcRequest
    } else if v == 18 {
        MessageType::RpcResponse
    } else {
        MessageType::AuthorizationRequest
    }
}

impl MessageType {
    /// Wire code of the message type.
    pub open spec fn code_spec(self) -> u8 {
        match self {
            MessageType::AuthorizationRequest => 1,
            MessageType::AuthorizationResponse => 2,
            MessageType::DisconnectRequest => 3,
            MessageType::DisconnectResponse => 4,
            MessageType::SendMessageRequest => 5,
            MessageType::SendMessageResponse => 6,
            MessageType::PushMessageRequest => 7,
            MessageType::PushMessageResponse => 8,
            MessageType::PushBatchRequest => 9,
            MessageType::PushBatchResponse => 10,
            MessageType::PingRequest => 11,
            MessageType::PongResponse => 12,
            MessageType::SubscribeRequest => 13,
            MessageType::SubscribeResponse => 14,
            MessageType::PublishRequest => 15,
            MessageType::PublishResponse => 16,
            MessageType::RpcRequest => 17,
            MessageType::RpcResponse => 18,
        }
    }
}

impl From<u8> for MessageType {
    fn from(value: u8) -> Self {
        match value {
            1 => MessageType::AuthorizationRequest,
            2 => MessageType::AuthorizationResponse,
            3 => MessageType::DisconnectRequest,
            4 => MessageType::DisconnectResponse,
            5 => MessageType::SendMessageRequest,
            6 => MessageType::SendMessageResponse,
            7 => MessageType::PushMessageRequest,
            8 => MessageType::PushMessageResponse,
            9 => MessageType::PushBatchRequest,
            10 => MessageType::PushBatchResponse,
            11 => MessageType::PingRequest,
            12 => MessageType::PongResponse,
            13 => MessageType::SubscribeRequest,
            14 => MessageType::SubscribeResponse,
            15 => MessageType::PublishRequest,
            16 => MessageType::PublishResponse,
            17 => MessageType::RpcRequest,
            18 => MessageType::RpcResponse,
            _ => MessageType::AuthorizationRequest,
        }
    }
}

impl vstd::std_specs::convert::FromSpecImpl<u8> for MessageType {
    open spec fn obeys_from_spec() -> bool {
        true
    }

    open spec fn from_spec(v: u8) -> MessageType {
        message_type_from_code(v)
    }
}

impl From<MessageType> for u8 {
    fn from(msg_type: MessageType) -> Self {
        match msg_type {
            MessageType::AuthorizationRequest => 1,
            MessageType::AuthorizationResponse => 2,
            MessageType::DisconnectRequest => 3,
            MessageType::DisconnectResponse => 4,
            MessageType::SendMessageRequest => 5,
            MessageType::SendMessageResponse => 6,
            MessageType::PushMessageRequest => 7,
            MessageType::PushMessageResponse => 8,
            MessageType::PushBatchRequest => 9,
            MessageType::PushBatchResponse => 10,
            MessageType::PingRequest => 11,
            MessageType::PongResponse => 12,
            MessageType::SubscribeRequest => 13,
            MessageType::SubscribeResponse => 14,
            MessageType::PublishRequest => 15,
            MessageType::PublishResponse => 16,
            MessageType::RpcRequest => 17,
            MessageType::RpcResponse => 18,
        }
    }
}

impl vstd::std_specs::convert::FromSpecImpl<MessageType> for u8 {
    open spec fn obeys_from_spec() -> bool {
        true
    }

    open spec fn from_spec(v: MessageType) -> u8 {
        v.code_spec()
    }
}

/// 消息设置
#[derive(Debug, Clone, Default)]
pub struct MessageSetting {
    pub need_receipt: bool,
    pub signal: u8,
}

impl MessageSetting {
    /// An empty value: every field at its default.
    pub fn new() -> (r: Self)
        ensures
            !r.need_receipt,
            r.signal == 0,
    {
        MessageSetting {
            need_receipt: false,
            signal: 0,
        }
    }
}

/// 数据包结构
#[derive(Debug, Clone)]
pub struct Packet<T: Message> {
    pub message_type: MessageType,
    pub body: T,
}

impl<T: Message> Packet<T> {
    pub fn new(message_type: MessageType, body: T) -> (r: Self)
        ensures
            r.message_type == message_type,
            r.body == body,
    {
        Self { message_type, body }
    }
}

/// 连接请求
#[derive(Debug, Clone)]
pub struct AuthorizationRequest {
    /// 认证类型
    pub auth_type: AuthType,
    /// 认证令牌
    pub auth_token: String,
    /// 客户端信息
    pub client_info: ClientInfo,
    /// 设备信息
    pub device_info: DeviceInfo,
    /// 协议版本
    pub protocol_version: String,
    /// 扩展属性
    pub properties: HashMap<String, String>,
}

impl AuthorizationRequest {
    /// A JWT request with empty fields, speaking this library's version.
    pub fn new() -> (r: Self)
        ensures
            r.auth_type is JWT,
            r.auth_token@.len() == 0,
            r.client_info.client_type@.len() == 0,
            r.client_info.version@.len() == 0,
            r.client_info.os@.len() == 0,
            r.client_info.os_version@.len() == 0,
            r.client_info.device_model is None,
            r.client_info.app_package is None,
            r.device_info.device_id@.len() == 0,
            r.device_info.device_type is Unknown,
            r.device_info.app_id@.len() == 0,
            r.device_info.push_token is None,
            r.device_info.push_channel is None,
            r.device_info.device_name@.len() == 0,
            r.device_info.device_model is None,
            r.device_info.os_version is None,
            r.device_info.app_version is None,
            r.device_info.manufacturer is None,
            r.device_info.device_fingerprint is None,
            r.protocol_version@ == crate::VERSION@,
            r.properties@ == Map::<String, String>::empty(),
    {
        Self {
            auth_type: AuthType::JWT,
            auth_token: String::new(),
            client_info: ClientInfo {
                client_type: String::new(),
                version: String::new(),
                os: String::new(),
                os_version: String::new(),
                device_model: None,
                app_package: None,
            },
            device_info: DeviceInfo {
                device_id: String::new(),
                device_type: DeviceType::Unknown,
                app_id: String::new(),
                push_token: None,
                push_channel: None,
                device_name: String::new(),
                device_model: None,
                os_version: None,
                app_version: None,
                manufacturer: None,
                device_fingerprint: None,
            },
            protocol_version: String::from_str(crate::VERSION),
            properties: HashMap::new(),
        }
    }

    pub fn create_packet(self) -> (r: Packet<Self>)
        ensures
            r.message_type == MessageType::AuthorizationRequest,
            r.message_type == self.message_type_spec(),
            r.body == self,
    {
        Packet::new(MessageType::AuthorizationRequest, self)
    }
}

/// 连接响应
#[derive(Debug, Clone)]
pub struct AuthorizationResponse {
    /// 连接是否成功
    pub success: bool,
    /// 错误码
    pub error_code: Option<String>,
    /// 错误信息
    pub error_message: Option<String>,
    /// 会话ID
    pub session_id: Option<String>,
    /// 用户ID
    pub user_id: Option<u64>,
    /// 服务器分配的连接ID
    pub connection_id: Option<String>,
    /// 服务器信息
    pub server_info: Option<ServerInfo>,
    /// 心跳间隔（秒）
    pub heartbeat_interval: Option<u64>,
}

/// 认证类型
#[derive(Debug, Clone)]
pub enum AuthType {
    /// JWT令牌认证
    JWT,
    /// 用户名密码认证
    UserPassword,
    /// 第三方OAuth认证
    OAuth,
    /// 匿名认证
    Anonymous,
}

/// 客户端信息
#[derive(Debug, Clone)]
pub struct ClientInfo {
    /// 客户端类型
    pub client_type: String,
    /// 客户端版本
    pub version: String,
    /// 操作系统
    pub os: String,
    /// 操作系统版本
    pub os_version: String,
    /// 设备型号
    pub device_model: Option<String>,
    /// 应用包名
    pub app_package: Option<String>,
}

/// 设备信息
#[derive(Debug, Clone)]
pub struct DeviceInfo {
    pub device_id: String,
    pub device_type: DeviceType,
    pub app_id: String,
    pub push_token: Option<String>,
    pub push_channel: Option<String>,
    pub device_name: String,
    pub device_model: Option<String>,
    pub os_version: Option<String>,
    pub app_version: Option<String>,
    pub manufacturer: Option<String>,
    pub device_fingerprint: Option<String>,
}

/// 设备类型
#[derive(Debug, Clone, PartialEq, Eq, Hash)]
#[allow(non_camel_case_types)]
pub enum DeviceType {
    iOS,
    Android,
    Web,
    MacOS,
    Windows,
    Linux,
    IoT,
    Unknown,
}

impl DeviceType {
    /// The text `as_str` gives.
    pub open spec fn name_spec(&self) -> Seq<char> {
        match self {
            DeviceType::iOS => "ios"@,
            DeviceType::Android => "android"@,
            DeviceType::Web => "web"@,
            DeviceType::MacOS => "macos"@,
            DeviceType::Windows => "windows"@,
            DeviceType::Linux => "linux"@,
            DeviceType::IoT => "iot"@,
            DeviceType::Unknown => "unknown"@,
        }
    }

    pub fn as_str(&self) -> (r: &'static str)
        ensures
            r@ == self.name_spec(),
    {
        match self {
            DeviceType::iOS => "ios",
            DeviceType::Android => "android",
            DeviceType::Web => "web",
            DeviceType::MacOS => "macos",
            DeviceType::Windows => "windows",
            DeviceType::Linux => "linux",
            DeviceType::IoT => "iot",
            DeviceType::Unknown => "unknown",
        }
    }

    /// The device type a lower-case name stands for.
    pub open spec fn from_lowercase_spec(name: Seq<char>) -> DeviceType {
        if name == "ios"@ {
            DeviceType::iOS
        } else if name == "android"@ {
            DeviceType::Android
        } else if name == "web"@ {
            DeviceType::Web
        } else if name == "macos"@ {
            DeviceType::MacOS
        } else if name == "windows"@ {
            DeviceType::Windows
        } else if name == "linux"@ || name == "freebsd"@ || name == "unix"@ {
            DeviceType::Linux
        } else if name == "iot"@ {
            DeviceType::IoT
        } else {
            DeviceType::Unknown
        }
    }

    /// The device type a lower-case name stands for; any other name is
    /// `Unknown`.
    pub fn from_lowercase(name: &String) -> (r: Self)
        ensures
            r == Self::from_lowercase_spec(name@),
    {
        if *name == String::from_str("ios") {
            DeviceType::iOS
        } else if *name == String::from_str("android") {
            DeviceType::Android
        } else if *name == String::from_str("web") {
            DeviceType::Web
        } else if *name == String::from_str("macos") {
            DeviceType::MacOS
        } else if *name == String::from_str("windows") {
            DeviceType::Windows
        } else if *name == String::from_str("linux") || *name == String::from_str("freebsd")
            || *name == String::from_str("unix") {
            DeviceType::Linux
        } else if *name == String::from_str("iot") {
            DeviceType::IoT
        } else {
            DeviceType::Unknown
        }
    }

    /// The device type a name stands for, in any letter case.
    pub fn from_str(s: &str) -> (r: Self)
        ensures
            r == Self::from_lowercase_spec(lower_of(s@)),
    {
        let lower = lowercase(s);
        Self::from_lowercase(&lower)
    }
}

/// 服务器信息
#[derive(Debug, Clone)]
pub struct ServerInfo {
    pub version: String,
    pub name: String,
    pub features: Vec<String>,
    pub max_message_size: u64,
    pub connection_timeout: u64,
}

/// 断开连接请求
#[derive(Debug, Clone)]
pub struct DisconnectRequest {
    pub reason: DisconnectReason,
    pub message: Option<String>,
}

/// 断开连接响应
#[derive(Debug, Clone)]
pub struct DisconnectResponse {
    pub acknowledged: bool,
}

/// 断开连接原因
#[derive(Debug, Clone)]
pub enum DisconnectReason {
    UserInitiated,
    ServerShutdown,
    AuthenticationFailed,
    ProtocolError,
    Timeout,
    DuplicateConnection,
    ServerMaintenance,
}

/// 通用消息包装器
#[derive(Debug, Clone)]
pub struct MessagePacket {
    pub message_type: String,
    pub server_message_id: Option<u64>,
    pub timestamp: u64,
    pub payload: serde_json::Value,
    pub headers: HashMap<String, String>,
}

/// 错误响应
#[derive(Debug, Clone)]
pub struct ErrorResponse {
    pub error_code: String,
    pub error_message: String,
    pub error_details: Option<HashMap<String, String>>,
    pub timestamp: u64,
}

/// 发送消息请求
#[derive(Debug, Clone, Default)]
pub struct SendMessageRequest {
    pub setting: MessageSetting,
    pub client_seq: u32,
    pub local_message_id: u64,
    pub stream_no: String,
    pub channel_id: u64,
    pub message_type: u32,
    pub expire: u32,
    pub from_uid: u64,
    pub topic: String,
    pub payload: Vec<u8>,
}

impl SendMessageRequest {
    /// An empty value: every field at its default.
    pub fn new() -> (r: Self)
        ensures
            !r.setting.need_receipt && r.setting.signal == 0,
            r.client_seq == 0,
            r.local_message_id == 0,
            r.stream_no@ == Seq::<char>::empty(),
            r.channel_id == 0,
            r.message_type == 0,
            r.expire == 0,
            r.from_uid == 0,
            r.topic@ == Seq::<char>::empty(),
            r.payload@.len() == 0,
    {
        SendMessageRequest {
            setting: MessageSetting::new(),
            client_seq: 0,
            local_message_id: 0,
            stream_no: String::new(),
            channel_id: 0,
            message_type: 0,
            expire: 0,
            from_uid: 0,
            topic: String::new(),
            payload: Vec::new(),
        }
    }

    pub fn create_packet(self) -> (r: Packet<Self>)
        ensures
            r.message_type == MessageType::SendMessageRequest,
            r.message_type == self.message_type_spec(),
            r.body == self,
    {
        Packet::new(MessageType::SendMessageRequest, self)
    }

    pub fn verify_string(&self) -> (r: String)
        ensures
            r@ == decimal(self.local_message_id as nat) + ":"@ + decimal(self.channel_id as nat) + ":"@
                + decimal(self.from_uid as nat),
    {
        let mut s = decimal_string(self.local_message_id);
        s.append(":");
        let ch = decimal_string(self.channel_id);
        s.append(ch.as_str());
        s.append(":");
        let uid = decimal_string(self.from_uid);
        s.append(uid.as_str());
        s
    }
}

/// 发送消息响应
#[derive(Debug, Clone, Default)]
pub struct SendMessageResponse {
    pub client_seq: u32,
    pub server_message_id: u64,
    pub message_seq: u32,
    pub reason_code: u32,
}

impl SendMessageResponse {
    /// An empty value: every field at its default.
    pub fn new() -> (r: Self)
        ensures
            r.client_seq == 0,
            r.server_message_id == 0,
            r.message_seq == 0,
            r.reason_code == 0,
    {
        SendMessageResponse {
            client_seq: 0,
            server_message_id: 0,
            message_seq: 0,
            reason_code: 0,
        }
    }

    pub fn create_packet(self) -> (r: Packet<Self>)
        ensures
            r.message_type == MessageType::SendMessageResponse,
            r.message_type == self.message_type_spec(),
            r.body == self,
    {
        Packet::new(MessageType::SendMessageResponse, self)
    }
}

/// 推送消息请求（服务端推送给客户端）
#[derive(Debug, Clone, Default)]
pub struct PushMessageRequest {
    pub setting: MessageSetting,
    pub msg_key: String,
    pub server_message_id: u64,
    pub message_seq: u32,
    pub local_message_id: u64,
    pub stream_no: String,
    pub stream_seq: u32,
    pub stream_flag: u8,
    pub timestamp: u32,
    pub channel_id: u64,
    pub channel_type: u8,
    pub message_type: u32,
    pub expire: u32,
    pub topic: String,
    pub from_uid: u64,
    pub payload: Vec<u8>,
}

impl PushMessageRequest {
    /// An empty value: every field at its default.
    pub fn new() -> (r: Self)
        ensures
            !r.setting.need_receipt && r.setting.signal == 0,
            r.msg_key@ == Seq::<char>::empty(),
            r.server_message_id == 0,
            r.message_seq == 0,
            r.local_message_id == 0,
            r.stream_no@ == Seq::<char>::empty(),
            r.stream_seq == 0,
            r.stream_flag == 0,
            r.timestamp == 0,
            r.channel_id == 0,
            r.channel_type == 0,
            r.message_type == 0,
            r.expire == 0,
            r.topic@ == Seq::<char>::empty(),
            r.from_uid == 0,
            r.payload@.len() == 0,
    {
        PushMessageRequest {
            setting: MessageSetting::new(),
            msg_key: String::new(),
            server_message_id: 0,
            message_seq: 0,
            local_message_id: 0,
            stream_no: String::new(),
            stream_seq: 0,
            stream_flag: 0,
            timestamp: 0,
            channel_id: 0,
            channel_type: 0,
            message_type: 0,
            expire: 0,
            topic: String::new(),
            from_uid: 0,
            payload: Vec::new(),
        }
    }

    pub fn create_packet(self) -> (r: Packet<Self>)
        ensures
            r.message_type == MessageType::PushMessageRequest,
            r.message_type == self.message_type_spec(),
            r.body == self,
    {
        Packet::new(MessageType::PushMessageRequest, self)
    }

    pub fn verify_string(&self) -> (r: String)
        ensures
            r@ == decimal(self.server_message_id as nat) + ":"@ + decimal(self.channel_id as nat) + ":"@
                + decimal(self.from_uid as nat),
    {
        let mut s = decimal_string(self.server_message_id);
        s.append(":");
        let ch = decimal_string(self.channel_id);
        s.append(ch.as_str());
        s.append(":");
        let uid = decimal_string(self.from_uid);
        s.append(uid.as_str());
        s
    }
}

/// 推送消息响应（客户端确认接收）
#[derive(Debug, Clone, Default)]
pub struct PushMessageResponse {
    pub succeed: bool,
    pub message: Option<String>,
}

impl PushMessageResponse {
    /// An empty value: every field at its default.
    pub fn new() -> (r: Self)
        ensures
            !r.succeed,
            r.message is None,
    {
        PushMessageResponse {
            succeed: false,
            message: None,
        }
    }

    pub fn create_packet(self) -> (r: Packet<Self>)
        ensures
            r.message_type == MessageType::PushMessageResponse,
            r.message_type == self.message_type_spec(),
            r.body == self,
    {
        Packet::new(MessageType::PushMessageResponse, self)
    }
}

/// 心跳消息
#[derive(Debug, Clone, Default)]
pub struct PingRequest {
    pub timestamp: i64,
}

impl PingRequest {
    /// An empty value: every field at its default.
    pub fn new() -> (r: Self)
        ensures
            r.timestamp == 0,
    {
        PingRequest {
            timestamp: 0,
        }
    }

    pub fn create_packet(self) -> (r: Packet<Self>)
        ensures
            r.message_type == MessageType::PingRequest,
            r.message_type == self.message_type_spec(),
            r.body == self,
    {
        Packet::new(MessageType::PingRequest, self)
    }
}

/// 心跳回复消息
#[derive(Debug, Clone, Default)]
pub struct PongResponse {
    pub timestamp: i64,
}

impl PongResponse {
    /// An empty value: every field at its default.
    pub fn new() -> (r: Self)
        ensures
            r.timestamp == 0,
    {
        PongResponse {
            timestamp: 0,
        }
    }

    pub fn create_packet(self) -> (r: Packet<Self>)
        ensures
            r.message_type == MessageType::PongResponse,
            r.message_type == self.message_type_spec(),
            r.body == self,
    {
        Packet::new(MessageType::PongResponse, self)
    }
}

/// 订阅消息
#[derive(Debug, Clone, Default)]
pub struct SubscribeRequest {
    pub setting: u8,
    pub local_message_id: u64,
    pub channel_id: u64,
    pub channel_type: u8,
    pub action: u8,
    pub param: String,
}

impl SubscribeRequest {
    /// An empty value: every field at its default.
    pub fn new() -> (r: Self)
        ensures
            r.setting == 0,
            r.local_message_id == 0,
            r.channel_id == 0,
            r.channel_type == 0,
            r.action == 0,
            r.param@ == Seq::<char>::empty(),
    {
        SubscribeRequest {
            setting: 0,
            local_message_id: 0,
            channel_id: 0,
            channel_type: 0,
            action: 0,
            param: String::new(),
        }
    }

    pub fn create_packet(self) -> (r: Packet<Self>)
        ensures
            r.message_type == MessageType::SubscribeRequest,
            r.message_type == self.message_type_spec(),
            r.body == self,
    {
        Packet::new(MessageType::SubscribeRequest, self)
    }
}

/// 订阅确认消息
#[derive(Debug, Clone, Default)]
pub struct SubscribeResponse {
    pub local_message_id: u64,
    pub channel_id: u64,
    pub channel_type: u8,
    pub action: u8,
    pub reason_code: u8,
}

impl SubscribeResponse {
    /// An empty value: every field at its default.
    pub fn new() -> (r: Self)
        ensures
            r.local_message_id == 0,
            r.channel_id == 0,
            r.channel_type == 0,
            r.action == 0,
            r.reason_code == 0,
    {
        SubscribeResponse {
            local_message_id: 0,
            channel_id: 0,
            channel_type: 0,
            action: 0,
            reason_code: 0,
        }
    }

    pub fn create_packet(self) -> (r: Packet<Self>)
        ensures
            r.message_type == MessageType::SubscribeResponse,
            r.message_type == self.message_type_spec(),
            r.body == self,
    {
        Packet::new(MessageType::SubscribeResponse, self)
    }
}

/// 批量接收消息
#[derive(Debug, Clone, Default)]
pub struct PushBatchRequest {
    pub messages: Vec<PushMessageRequest>,
}

impl PushBatchRequest {
    /// An empty value: every field at its default.
    pub fn new() -> (r: Self)
        ensures
            r.messages@.len() == 0,
    {
        PushBatchRequest {
            messages: Vec::new(),
        }
    }

    pub fn create_packet(self) -> (r: Packet<Self>)
        ensures
            r.message_type == MessageType::PushBatchRequest,
            r.message_type == self.message_type_spec(),
            r.body == self,
    {
        Packet::new(MessageType::PushBatchRequest, self)
    }

    pub fn single_batch(messages: Vec<PushMessageRequest>) -> (r: Self)
        ensures
            r.messages == messages,
    {
        Self { messages }
    }

    pub fn multi_batch(messages: Vec<PushMessageRequest>) -> (r: Self)
        ensures
            r.messages == messages,
    {
        Self { messages }
    }

    pub fn message_count(&self) -> (r: usize)
        ensures
            r == self.messages@.len(),
    {
        self.messages.len()
    }

    pub fn is_empty(&self) -> (r: bool)
        ensures
            r == (self.messages@.len() == 0),
    {
        self.messages.is_empty()
    }
}

/// 批量接收确认消息
#[derive(Debug, Clone, Default)]
pub struct PushBatchResponse {
    pub succeed: bool,
    pub message: Option<String>,
}

impl PushBatchResponse {
    /// An empty value: every field at its default.
    pub fn new() -> (r: Self)
        ensures
            !r.succeed,
            r.message is None,
    {
        PushBatchResponse {
            succeed: false,
            message: None,
        }
    }

    pub fn create_packet(self) -> (r: Packet<Self>)
        ensures
            r.message_type == MessageType::PushBatchResponse,
            r.message_type == self.message_type_spec(),
            r.body == self,
    {
        Packet::new(MessageType::PushBatchResponse, self)
    }

    pub fn success() -> (r: Self)
        ensures
            r.succeed,
            r.message is Some && r.message->0@ == "批量消息接收成功"@,
    {
        Self {
            succeed: true,
            message: Some(String::from_str("批量消息接收成功")),
        }
    }

    pub fn failure(error_msg: &str) -> (r: Self)
        ensures
            !r.succeed,
            r.message is Some && r.message->0@ == error_msg@,
    {
        Self {
            succeed: false,
            message: Some(String::from_str(error_msg)),
        }
    }
}

/// 频道推送消息
#[derive(Debug, Clone, Default)]
pub struct PublishRequest {
    pub channel_id: u64,
    pub topic: Option<String>,
    pub timestamp: u64,
    pub payload: Vec<u8>,
    pub publisher: Option<String>,
    pub server_message_id: Option<u64>,
}

impl PublishRequest {
    /// An empty value: every field at its default.
    pub fn new() -> (r: Self)
        ensures
            r.channel_id == 0,
            r.topic is None,
            r.timestamp == 0,
            r.payload@.len() == 0,
            r.publisher is None,
            r.server_message_id is None,
    {
        PublishRequest {
            channel_id: 0,
            topic: None,
            timestamp: 0,
            payload: Vec::new(),
            publisher: None,
            server_message_id: None,
        }
    }

    pub fn create_packet(self) -> (r: Packet<Self>)
        ensures
            r.message_type == MessageType::PublishRequest,
            r.message_type == self.message_type_spec(),
            r.body == self,
    {
        Packet::new(MessageType::PublishRequest, self)
    }

    /// `r` is a system push to `channel_id` at Unix time `timestamp`.
    pub open spec fn is_system_push(r: Self, channel_id: u64, payload: Vec<u8>, timestamp: u64) -> bool {
        &&& r.channel_id == channel_id
        &&& r.topic is None
        &&& r.timestamp == timestamp
        &&& r.payload == payload
        &&& r.publisher is Some && r.publisher->0@ == "system"@
        &&& r.server_message_id == Some(timestamp)
    }

    /// `r` is a push on `topic` to `channel_id` at Unix time `timestamp`.
    pub open spec fn is_topic_push(r: Self, channel_id: u64, topic: Seq<char>, payload: Vec<u8>, timestamp: u64) -> bool {
        &&& r.channel_id == channel_id
        &&& r.topic is Some && r.topic->0@ == topic
        &&& r.timestamp == timestamp
        &&& r.payload == payload
        &&& r.publisher is None
        &&& r.server_message_id == Some(timestamp)
    }

    /// A system push to `channel_id` at Unix time `timestamp` (seconds),
    /// which also serves as its message id.
    pub fn system_push_at(channel_id: u64, payload: Vec<u8>, timestamp: u64) -> (r: Self)
        ensures
            Self::is_system_push(r, channel_id, payload, timestamp),
    {
        Self {
            channel_id,
            topic: None,
            timestamp,
            payload,
            publisher: Some(String::from_str("system")),
            server_message_id: Some(timestamp),
        }
    }

    /// A system push to `channel_id`, stamped with the current time (0 when
    /// the clock reads before the Unix epoch).
    pub fn system_push(channel_id: u64, payload: Vec<u8>) -> (r: Self)
        ensures
            exists|t: u64| Self::is_system_push(r, channel_id, payload, t),
    {
        let timestamp = unix_seconds_now();
        Self::system_push_at(channel_id, payload, timestamp)
    }

    /// A push on `topic` to `channel_id` at Unix time `timestamp` (seconds),
    /// which also serves as its message id.
    pub fn topic_push_at(channel_id: u64, topic: &str, payload: Vec<u8>, timestamp: u64) -> (r: Self)
        ensures
            Self::is_topic_push(r, channel_id, topic@, payload, timestamp),
    {
        Self {
            channel_id,
            topic: Some(String::from_str(topic)),
            timestamp,
            payload,
            publisher: None,
            server_message_id: Some(timestamp),
        }
    }

    /// A push on `topic` to `channel_id`, stamped with the current time (0
    /// when the clock reads before the Unix epoch).
    pub fn topic_push(channel_id: u64, topic: &str, payload: Vec<u8>) -> (r: Self)
        ensures
            exists|t: u64| Self::is_topic_push(r, channel_id, topic@, payload, t),
    {
        let timestamp = unix_seconds_now();
        Self::topic_push_at(channel_id, topic, payload, timestamp)
    }
}

/// 推送确认消息
#[derive(Debug, Clone, Default)]
pub struct PublishResponse {
    pub succeed: bool,
    pub message: Option<String>,
}

impl PublishResponse {
    /// An empty value: every field at its default.
    pub fn new() -> (r: Self)
        ensures
            !r.succeed,
            r.message is None,
    {
        PublishResponse {
            succeed: false,
            message: None,
        }
    }

    pub fn create_packet(self) -> (r: Packet<Self>)
        ensures
            r.message_type == MessageType::PublishResponse,
            r.message_type == self.message_type_spec(),
            r.body == self,
    {
        Packet::new(MessageType::PublishResponse, self)
    }

    pub fn success() -> (r: Self)
        ensures
            r.succeed,
            r.message is Some && r.message->0@ == "推送消息接收成功"@,
    {
        Self {
            succeed: true,
            message: Some(String::from_str("推送消息接收成功")),
        }
    }

    pub fn failure(error_msg: &str) -> (r: Self)
        ensures
            !r.succeed,
            r.message is Some && r.message->0@ == error_msg@,
    {
        Self {
            succeed: false,
            message: Some(String::from_str(error_msg)),
        }
    }
}

/// RPC 请求消息
#[derive(Debug, Clone)]
pub struct RpcRequest {
    pub route: String,
    pub body: serde_json::Value,
}

impl RpcRequest {
    /// A request with an empty route and a null body.
    pub fn new() -> (r: Self)
        ensures
            r.route@.len() == 0,
    {
        Self { route: String::new(), body: json_null() }
    }

    pub fn create_packet(self) -> (r: Packet<Self>)
        ensures
            r.message_type == MessageType::RpcRequest,
            r.message_type == self.message_type_spec(),
            r.body == self,
    {
        Packet::new(MessageType::RpcRequest, self)
    }
}

/// RPC 响应消息
#[derive(Debug, Clone)]
pub struct RpcResponse {
    pub code: i32,
    pub message: String,
    pub data: Option<serde_json::Value>,
}

impl RpcResponse {
    /// A success without data.
    pub fn new() -> (r: Self)
        ensures
            r.code == 0,
            r.message@ == "OK"@,
            r.data is None,
    {
        Self { code: 0, message: String::from_str("OK"), data: None }
    }

    pub fn create_packet(self) -> (r: Packet<Self>)
        ensures
            r.message_type == MessageType::RpcResponse,
            r.message_type == self.message_type_spec(),
            r.body == self,
    {
        Packet::new(MessageType::RpcResponse, self)
    }

    /// A success carrying `data`.
    pub fn success(data: serde_json::Value) -> (r: Self)
        ensures
            r.code == 0,
            r.message@ == "OK"@,
            r.data == Some(data),
    {
        Self { code: 0, message: String::from_str("OK"), data: Some(data) }
    }

    /// A success without data.
    pub fn success_empty() -> (r: Self)
        ensures
            r.code == 0,
            r.message@ == "OK"@,
            r.data is None,
    {
        Self { code: 0, message: String::from_str("OK"), data: None }
    }

    /// A failure with `code` and `message`.
    pub fn error(code: i32, message: String) -> (r: Self)
        ensures
            r.code == code,
            r.message == message,
            r.data is None,
    {
        Self { code, message, data: None }
    }

    /// The response reports success.
    #[inline]
    pub fn is_ok(&self) -> (r: bool)
        ensures
            r == (self.code == 0),
    {
        self.code == 0
    }

    /// The response reports a failure.
    #[inline]
    pub fn is_err(&self) -> (r: bool)
        ensures
            r == (self.code != 0),
    {
        self.code != 0
    }
}

impl Message for AuthorizationRequest {
    open spec fn message_type_spec(&self) -> MessageType {
        MessageType::AuthorizationRequest
    }

    fn message_type(&self) -> MessageType {
        MessageType::AuthorizationRequest
    }
}

impl Message for AuthorizationResponse {
    open spec fn message_type_spec(&self) -> MessageType {
        MessageType::AuthorizationResponse
    }

    fn message_type(&self) -> MessageType {
        MessageType::AuthorizationResponse
    }
}

impl Message for SendMessageRequest {
    open spec fn message_type_spec(&self) -> MessageType {
        MessageType::SendMessageRequest
    }

    fn message_type(&self) -> MessageType {
        MessageType::SendMessageRequest
    }
}

impl Message for SendMessageResponse {
    open spec fn message_type_spec(&self) -> MessageType {
        MessageType::SendMessageResponse
    }

    fn message_type(&self) -> MessageType {
        MessageType::SendMessageResponse
    }
}

impl Message for PushMessageRequest {
    open spec fn message_type_spec(&self) -> MessageType {
        MessageType::PushMessageRequest
    }

    fn message_type(&self) -> MessageType {
        MessageType::PushMessageRequest
    }
}

impl Message for PushMessageResponse {
    open spec fn message_type_spec(&self) -> MessageType {
        MessageType::PushMessageResponse
    }

    fn message_type(&self) -> MessageType {
        MessageType::PushMessageResponse
    }
}

impl Message for PingRequest {
    open spec fn message_type_spec(&self) -> MessageType {
        MessageType::PingRequest
    }

    fn message_type(&self) -> MessageType {
        MessageType::PingRequest
    }
}

impl Message for PongResponse {
    open spec fn message_type_spec(&self) -> MessageType {
        MessageType::PongResponse
    }

    fn message_type(&self) -> MessageType {
        MessageType::PongResponse
    }
}

impl Message for DisconnectRequest {
    open spec fn message_type_spec(&self) -> MessageType {
        MessageType::DisconnectRequest
    }

    fn message_type(&self) -> MessageType {
        MessageType::DisconnectRequest
    }
}

impl Message for SubscribeRequest {
    open spec fn message_type_spec(&self) -> MessageType {
        MessageType::SubscribeRequest
    }

    fn message_type(&self) -> MessageType {
        MessageType::SubscribeRequest
    }
}

impl Message for SubscribeResponse {
    open spec fn message_type_spec(&self) -> MessageType {
        MessageType::SubscribeResponse
    }

    fn message_type(&self) -> MessageType {
        MessageType::SubscribeResponse
    }
}

impl Message for PushBatchRequest {
    open spec fn message_type_spec(&self) -> MessageType {
        MessageType::PushBatchRequest
    }

    fn message_type(&self) -> MessageType {
        MessageType::PushBatchRequest
    }
}

impl Message for PushBatchResponse {
    open spec fn message_type_spec(&self) -> MessageType {
        MessageType::PushBatchResponse
    }

    fn message_type(&self) -> MessageType {
        MessageType::PushBatchResponse
    }
}

impl DisconnectResponse {
    /// An unacknowledged disconnect.
    pub fn new() -> (r: Self)
        ensures
            !r.acknowledged,
    {
        Self {
            acknowledged: false,
        }
    }

    pub fn create_packet(self) -> (r: Packet<Self>)
        ensures
            r.message_type == MessageType::DisconnectResponse,
            r.message_type == self.message_type_spec(),
            r.body == self,
    {
        Packet::new(MessageType::DisconnectResponse, self)
    }
}

impl Message for DisconnectResponse {
    open spec fn message_type_spec(&self) -> MessageType {
        MessageType::DisconnectResponse
    }

    fn message_type(&self) -> MessageType {
        MessageType::DisconnectResponse
    }
}

impl Message for PublishRequest {
    open spec fn message_type_spec(&self) -> MessageType {
        MessageType::PublishRequest
    }

    fn message_type(&self) -> MessageType {
        MessageType::PublishRequest
    }
}

impl Message for PublishResponse {
    open spec fn message_type_spec(&self) -> MessageType {
        MessageType::PublishResponse
    }

    fn message_type(&self) -> MessageType {
        MessageType::PublishResponse
    }
}

impl Message for RpcRequest {
    open spec fn message_type_spec(&self) -> MessageType {
        MessageType::RpcRequest
    }

    fn message_type(&self) -> MessageType {
        MessageType::RpcRequest
    }
}

impl Message for RpcResponse {
    open spec fn message_type_spec(&self) -> MessageType {
        MessageType::RpcResponse
    }

    fn message_type(&self) -> MessageType {
        MessageType::RpcResponse
    }
}

} // verus!
