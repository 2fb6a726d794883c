use vstd::prelude::*;
use crate::text::{decimal, decimal_string};

verus! {

/// PrivChat IM Error Code v3.0
///
/// Error code design (priority-based):
/// - 0: Success
/// - 1-999: System errors (protocol, version, runtime stability) ⭐ First priority
/// - 10000-19999: Common errors (authentication, parameters, permissions, rate limiting)
/// - 20000-65535: Business errors (freely defined, allocated as needed)
///
/// Design principles: Simple and practical, flexible extension, within 65535 (u16 range)
///
/// **Important**: Error codes cannot be changed once published. New error codes must use new values.

#[derive(Debug, Clone, Copy, PartialEq, Eq, Structural)]
pub enum ErrorCode {
    // ==================== Success ====================
    /// Operation successful
    Success,

    // ==================== System Errors (1-999) ⭐ First Priority ====================

    // System Runtime (1-99)
    /// System error
    SystemError,
    /// System busy, please retry later
    SystemBusy,
    /// Service unavailable
    ServiceUnavailable,
    /// Internal error
    InternalError,
    /// Operation timeout
    Timeout,
    /// System maintenance
    Maintenance,
    /// Database error
    DatabaseError,
    /// Cache error
    CacheError,
    /// Network error
    NetworkError,

    // Protocol Related (100-199)
    /// Protocol error
    ProtocolError,
    /// Unsupported protocol version
    UnsupportedProtocol,
    /// Invalid packet
    InvalidPacket,
    /// Packet too large
    PacketTooLarge,
    /// Encoding error
    EncodingError,
    /// Decoding error
    DecodingError,

    // Version Compatibility (200-299)
    /// Version error
    VersionError,
    /// Client version too old
    ClientVersionTooOld,
    /// Client version too new
    ClientVersionTooNew,
    /// Incompatible version
    IncompatibleVersion,
    /// API deprecated
    DeprecatedApi,

    // ==================== Common Errors (10000-19999) ====================
    // Every 100 codes per segment

    // Authentication/Authorization (10000-10099)
    /// Authentication required
    AuthRequired,
    /// Invalid token
    InvalidToken,
    /// Token expired
    TokenExpired,
    /// Token revoked
    TokenRevoked,
    /// Permission denied
    PermissionDenied,
    /// Session expired
    SessionExpired,
    /// Session not found
    SessionNotFound,
    /// User banned
    UserBanned,
    /// IP address not allowed
    IpNotAllowed,

    // Request Parameters (10100-10199)
    /// Invalid parameters
    InvalidParams,
    /// Missing required parameter
    MissingRequiredParam,
    /// Invalid parameter type
    InvalidParamType,
    /// Parameter out of range
    ParamOutOfRange,
    /// Invalid format
    InvalidFormat,
    /// Invalid JSON format
    InvalidJson,
    /// Payload too large
    PayloadTooLarge,

    // Business Rules (10200-10299)
    /// Operation not allowed
    OperationNotAllowed,
    /// Resource not found
    ResourceNotFound,
    /// Resource already exists
    ResourceAlreadyExists,
    /// Resource deleted
    ResourceDeleted,
    /// Duplicate operation
    DuplicateOperation,
    /// Operation conflict
    OperationConflict,

    // Rate Limiting (10300-10399)
    /// Rate limit exceeded
    RateLimitExceeded,
    /// Daily quota exceeded
    DailyQuotaExceeded,
    /// Monthly quota exceeded
    MonthlyQuotaExceeded,
    /// Concurrent limit exceeded
    ConcurrentLimitExceeded,

    // ==================== Business Errors (20000-65535) ====================
    // Every 100 codes per segment, starting from 20000

    // Message Basics (20000-20099)
    /// Message not found
    MessageNotFound,
    /// Message deleted
    MessageDeleted,
    /// Message revoked
    MessageRevoked,
    /// Message send failed
    MessageSendFailed,
    /// Message too large
    MessageTooLarge,
    /// Invalid message type
    MessageTypeInvalid,
    /// Invalid message content
    MessageContentInvalid,
    /// Message cannot be revoked (timeout)
    MessageCannotRevoke,
    /// Message already read
    MessageAlreadyRead,
    /// Send message too fast
    SendMessageTooFast,

    // Offline Messages (20100-20199)
    /// Offline message queue full
    OfflineMessageFull,
    /// Offline message expired
    OfflineMessageExpired,

    // User Basics (20200-20299)
    /// User not found
    UserNotFound,
    /// User already exists
    UserAlreadyExists,
    /// User deleted
    UserDeleted,
    /// User banned
    UserBannedAlt,
    /// User not active
    UserNotActive,
    /// Invalid nickname
    NicknameInvalid,
    /// Invalid avatar
    AvatarInvalid,

    // Group Basics (20300-20399)
    /// Group not found
    GroupNotFound,
    /// Group deleted
    GroupDeleted,
    /// Group full
    GroupFull,
    /// Not a group member
    NotGroupMember,
    /// Not a group admin
    NotGroupAdmin,
    /// Not a group owner
    NotGroupOwner,
    /// Group muted
    GroupMuted,
    /// Member muted
    MemberMuted,
    /// Member already in group
    MemberAlreadyInGroup,
    /// Cannot remove owner
    CannotRemoveOwner,
    /// Join approval required
    JoinApprovalRequired,

    // Friend Basics (20400-20499)
    /// Friend not found
    FriendNotFound,
    /// Already friends
    AlreadyFriends,
    /// Blocked by user
    BlockedByUser,
    /// User in blacklist
    UserInBlacklist,

    // Channel Basics (20500-20599)
    /// Channel not found
    ChannelNotFound,
    /// Channel deleted
    ChannelDeleted,
    /// Channel muted
    ChannelMuted,

    // File Basics (20600-20699)
    /// File not found
    FileNotFound,
    /// File upload failed
    FileUploadFailed,
    /// File too large
    FileTooLarge,
    /// File type not allowed
    FileTypeNotAllowed,
    /// Upload token invalid
    UploadTokenInvalid,
    /// Upload token expired
    UploadTokenExpired,
    /// Storage quota exceeded
    StorageQuotaExceeded,

    // QR Code (20700-20799)
    /// QR code not found
    QRCodeNotFound,
    /// QR code expired
    QRCodeExpired,
    /// QR code used
    QRCodeUsed,
    /// QR code revoked
    QRCodeRevoked,
    /// QR code limit exceeded
    QRCodeLimitExceeded,

    // Device (20800-20899)
    /// Device not found
    DeviceNotFound,
    /// Device limit exceeded
    DeviceLimitExceeded,
    /// Device not verified
    DeviceNotVerified,
}

impl ErrorCode {
    /// The numeric value of the error code.
    pub open spec fn code_spec(&self) -> u32 {
        match self {
            Self::Success => 0,
            Self::SystemError => 1,
            Self::SystemBusy => 2,
            Self::ServiceUnavailable => 3,
            Self::InternalError => 4,
            Self::Timeout => 5,
            Self::Maintenance => 6,
            Self::DatabaseError => 7,
            Self::CacheError => 8,
            Self::NetworkError => 9,
            Self::ProtocolError => 100,
            Self::UnsupportedProtocol => 101,
            Self::InvalidPacket => 102,
            Self::PacketTooLarge => 103,
            Self::EncodingError => 104,
            Self::DecodingError => 105,
            Self::VersionError => 200,
            Self::ClientVersionTooOld => 201,
            Self::ClientVersionTooNew => 202,
            Self::IncompatibleVersion => 203,
            Self::DeprecatedApi => 204,
            Self::AuthRequired => 10000,
            Self::InvalidToken => 10001,
            Self::TokenExpired => 10002,
            Self::TokenRevoked => 10003,
            Self::PermissionDenied => 10004,
            Self::SessionExpired => 10005,
            Self::SessionNotFound => 10006,
            Self::UserBanned => 10007,
            Self::IpNotAllowed => 10008,
            Self::InvalidParams => 10100,
            Self::MissingRequiredParam => 10101,
            Self::InvalidParamType => 10102,
            Self::ParamOutOfRange => 10103,
            Self::InvalidFormat => 10104,
            Self::InvalidJson => 10105,
            Self::PayloadTooLarge => 10106,
            Self::OperationNotAllowed => 10200,
            Self::ResourceNotFound => 10201,
            Self::ResourceAlreadyExists => 10202,
            Self::ResourceDeleted => 10203,
            Self::DuplicateOperation => 10204,
            Self::OperationConflict => 10205,
            Self::RateLimitExceeded => 10300,
            Self::DailyQuotaExceeded => 10301,
            Self::MonthlyQuotaExceeded => 10302,
            Self::ConcurrentLimitExceeded => 10303,
            Self::MessageNotFound => 20000,
            Self::MessageDeleted => 20001,
            Self::MessageRevoked => 20002,
            Self::MessageSendFailed => 20003,
            Self::MessageTooLarge => 20004,
            Self::MessageTypeInvalid => 20005,
            Self::MessageContentInvalid => 20006,
            Self::MessageCannotRevoke => 20007,
            Self::MessageAlreadyRead => 20008,
            Self::SendMessageTooFast => 20009,
            Self::OfflineMessageFull => 20100,
            Self::OfflineMessageExpired => 20101,
            Self::UserNotFound => 20200,
            Self::UserAlreadyExists => 20201,
            Self::UserDeleted => 20202,
            Self::UserBannedAlt => 20203,
            Self::UserNotActive => 20204,
            Self::NicknameInvalid => 20205,
            Self::AvatarInvalid => 20206,
            Self::GroupNotFound => 20300,
            Self::GroupDeleted => 20301,
            Self::GroupFull => 20302,
            Self::NotGroupMember => 20303,
            Self::NotGroupAdmin => 20304,
            Self::NotGroupOwner => 20305,
            Self::GroupMuted => 20306,
            Self::MemberMuted => 20307,
            Self::MemberAlreadyInGroup => 20308,
            Self::CannotRemoveOwner => 20309,
            Self::JoinApprovalRequired => 20310,
            Self::FriendNotFound => 20400,
            Self::AlreadyFriends => 20401,
            Self::BlockedByUser => 20402,
            Self::UserInBlacklist => 20403,
            Self::ChannelNotFound => 20500,
            Self::ChannelDeleted => 20501,
            Self::ChannelMuted => 20502,
            Self::FileNotFound => 20600,
            Self::FileUploadFailed => 20601,
            Self::FileTooLarge => 20602,
            Self::FileTypeNotAllowed => 20603,
            Self::UploadTokenInvalid => 20604,
            Self::UploadTokenExpired => 20605,
            Self::StorageQuotaExceeded => 20606,
            Self::QRCodeNotFound => 20700,
            Self::QRCodeExpired => 20701,
            Self::QRCodeUsed => 20702,
            Self::QRCodeRevoked => 20703,
            Self::QRCodeLimitExceeded => 20704,
            Self::DeviceNotFound => 20800,
            Self::DeviceLimitExceeded => 20801,
            Self::DeviceNotVerified => 20802,
        }
    }

    /// Get the error code value
    pub fn code(&self) -> (r: u32)
        ensures
            r == self.code_spec(),
    {
        match self {
            Self::Success => 0,
            Self::SystemError => 1,
            Self::SystemBusy => 2,
            Self::ServiceUnavailable => 3,
            Self::InternalError => 4,
            Self::Timeout => 5,
            Self::Maintenance => 6,
            Self::DatabaseError => 7,
            Self::CacheError => 8,
            Self::NetworkError => 9,
            Self::ProtocolError => 100,
            Self::UnsupportedProtocol => 101,
            Self::InvalidPacket => 102,
            Self::PacketTooLarge => 103,
            Self::EncodingError => 104,
            Self::DecodingError => 105,
            Self::VersionError => 200,
            Self::ClientVersionTooOld => 201,
            Self::ClientVersionTooNew => 202,
            Self::IncompatibleVersion => 203,
            Self::DeprecatedApi => 204,
            Self::AuthRequired => 10000,
            Self::InvalidToken => 10001,
            Self::TokenExpired => 10002,
            Self::TokenRevoked => 10003,
            Self::PermissionDenied => 10004,
            Self::SessionExpired => 10005,
            Self::SessionNotFound => 10006,
            Self::UserBanned => 10007,
            Self::IpNotAllowed => 10008,
            Self::InvalidParams => 10100,
            Self::MissingRequiredParam => 10101,
            Self::InvalidParamType => 10102,
            Self::ParamOutOfRange => 10103,
            Self::InvalidFormat => 10104,
            Self::InvalidJson => 10105,
            Self::PayloadTooLarge => 10106,
            Self::OperationNotAllowed => 10200,
            Self::ResourceNotFound => 10201,
            Self::ResourceAlreadyExists => 10202,
            Self::ResourceDeleted => 10203,
            Self::DuplicateOperation => 10204,
            Self::OperationConflict => 10205,
            Self::RateLimitExceeded => 10300,
            Self::DailyQuotaExceeded => 10301,
            Self::MonthlyQuotaExceeded => 10302,
            Self::ConcurrentLimitExceeded => 10303,
            Self::MessageNotFound => 20000,
            Self::MessageDeleted => 20001,
            Self::MessageRevoked => 20002,
            Self::MessageSendFailed => 20003,
            Self::MessageTooLarge => 20004,
            Self::MessageTypeInvalid => 20005,
            Self::MessageContentInvalid => 20006,
            Self::MessageCannotRevoke => 20007,
            Self::MessageAlreadyRead => 20008,
            Self::SendMessageTooFast => 20009,
            Self::OfflineMessageFull => 20100,
            Self::OfflineMessageExpired => 20101,
            Self::UserNotFound => 20200,
            Self::UserAlreadyExists => 20201,
            Self::UserDeleted => 20202,
            Self::UserBannedAlt => 20203,
            Self::UserNotActive => 20204,
            Self::NicknameInvalid => 20205,
            Self::AvatarInvalid => 20206,
            Self::GroupNotFound => 20300,
            Self::GroupDeleted => 20301,
            Self::GroupFull => 20302,
            Self::NotGroupMember => 20303,
            Self::NotGroupAdmin => 20304,
            Self::NotGroupOwner => 20305,
            Self::GroupMuted => 20306,
            Self::MemberMuted => 20307,
            Self::MemberAlreadyInGroup => 20308,
            Self::CannotRemoveOwner => 20309,
            Self::JoinApprovalRequired => 20310,
            Self::FriendNotFound => 20400,
            Self::AlreadyFriends => 20401,
            Self::BlockedByUser => 20402,
            Self::UserInBlacklist => 20403,
            Self::ChannelNotFound => 20500,
            Self::ChannelDeleted => 20501,
            Self::ChannelMuted => 20502,
            Self::FileNotFound => 20600,
            Self::FileUploadFailed => 20601,
            Self::FileTooLarge => 20602,
            Self::FileTypeNotAllowed => 20603,
            Self::UploadTokenInvalid => 20604,
            Self::UploadTokenExpired => 20605,
            Self::StorageQuotaExceeded => 20606,
            Self::QRCodeNotFound => 20700,
            Self::QRCodeExpired => 20701,
            Self::QRCodeUsed => 20702,
            Self::QRCodeRevoked => 20703,
            Self::QRCodeLimitExceeded => 20704,
            Self::DeviceNotFound => 20800,
            Self::DeviceLimitExceeded => 20801,
            Self::DeviceNotVerified => 20802,
        }
    }

    /// The text `message` gives.
    pub open spec fn message_spec(&self) -> Seq<char> {
        match self {
            Self::Success => "Operation successful"@,
            Self::SystemError => "System error"@,
            Self::SystemBusy => "System busy, please retry later"@,
            Self::ServiceUnavailable => "Service unavailable"@,
            Self::InternalError => "Internal error"@,
            Self::Timeout => "Operation timeout"@,
            Self::Maintenance => "System maintenance"@,
            Self::DatabaseError => "Database error"@,
            Self::CacheError => "Cache error"@,
            Self::NetworkError => "Network error"@,
            Self::ProtocolError => "Protocol error"@,
            Self::UnsupportedProtocol => "Unsupported protocol version"@,
            Self::InvalidPacket => "Invalid packet"@,
            Self::PacketTooLarge => "Packet too large"@,
            Self::EncodingError => "Encoding error"@,
            Self::DecodingError => "Decoding error"@,
            Self::VersionError => "Version error"@,
            Self::ClientVersionTooOld => "Client version too old"@,
            Self::ClientVersionTooNew => "Client version too new"@,
            Self::IncompatibleVersion => "Incompatible version"@,
            Self::DeprecatedApi => "API deprecated"@,
            Self::AuthRequired => "Authentication required"@,
            Self::InvalidToken => "Invalid token"@,
            Self::TokenExpired => "Token expired"@,
            Self::TokenRevoked => "Token revoked"@,
            Self::PermissionDenied => "Permission denied"@,
            Self::SessionExpired => "Session expired"@,
            Self::SessionNotFound => "Session not found"@,
            Self::UserBanned => "User banned"@,
            Self::IpNotAllowed => "IP address not allowed"@,
            Self::InvalidParams => "Invalid parameters"@,
            Self::MissingRequiredParam => "Missing required parameter"@,
            Self::InvalidParamType => "Invalid parameter type"@,
            Self::ParamOutOfRange => "Parameter out of range"@,
            Self::InvalidFormat => "Invalid format"@,
            Self::InvalidJson => "Invalid JSON format"@,
            Self::PayloadTooLarge => "Payload too large"@,
            Self::OperationNotAllowed => "Operation not allowed"@,
            Self::ResourceNotFound => "Resource not found"@,
            Self::ResourceAlreadyExists => "Resource already exists"@,
            Self::ResourceDeleted => "Resource deleted"@,
            Self::DuplicateOperation => "Duplicate operation"@,
            Self::OperationConflict => "Operation conflict"@,
            Self::RateLimitExceeded => "Rate limit exceeded"@,
            Self::DailyQuotaExceeded => "Daily quota exceeded"@,
            Self::MonthlyQuotaExceeded => "Monthly quota exceeded"@,
            Self::ConcurrentLimitExceeded => "Concurrent limit exceeded"@,
            Self::MessageNotFound => "Message not found"@,
            Self::MessageDeleted => "Message deleted"@,
            Self::MessageRevoked => "Message revoked"@,
            Self::MessageSendFailed => "Message send failed"@,
            Self::MessageTooLarge => "Message too large"@,
            Self::MessageTypeInvalid => "Invalid message type"@,
            Self::MessageContentInvalid => "Invalid message content"@,
            Self::MessageCannotRevoke => "Message cannot be revoked (timeout)"@,
            Self::MessageAlreadyRead => "Message already read"@,
            Self::SendMessageTooFast => "Send message too fast"@,
            Self::OfflineMessageFull => "Offline message queue full"@,
            Self::OfflineMessageExpired => "Offline message expired"@,
            Self::UserNotFound => "User not found"@,
            Self::UserAlreadyExists => "User already exists"@,
            Self::UserDeleted => "User deleted"@,
            Self::UserBannedAlt => "User banned"@,
            Self::UserNotActive => "User not active"@,
            Self::NicknameInvalid => "Invalid nickname"@,
            Self::AvatarInvalid => "Invalid avatar"@,
            Self::GroupNotFound => "Group not found"@,
            Self::GroupDeleted => "Group deleted"@,
            Self::GroupFull => "Group full"@,
            Self::NotGroupMember => "Not a group member"@,
            Self::NotGroupAdmin => "Not a group admin"@,
            Self::NotGroupOwner => "Not a group owner"@,
            Self::GroupMuted => "Group muted"@,
            Self::MemberMuted => "Member muted"@,
            Self::MemberAlreadyInGroup => "Member already in group"@,
            Self::CannotRemoveOwner => "Cannot remove owner"@,
            Self::JoinApprovalRequired => "Join approval required"@,
            Self::FriendNotFound => "Friend not found"@,
            Self::AlreadyFriends => "Already friends"@,
            Self::BlockedByUser => "Blocked by user"@,
            Self::UserInBlacklist => "User in blacklist"@,
            Self::ChannelNotFound => "Channel not found"@,
            Self::ChannelDeleted => "Channel deleted"@,
            Self::ChannelMuted => "Channel muted"@,
            Self::FileNotFound => "File not found"@,
            Self::FileUploadFailed => "File upload failed"@,
            Self::FileTooLarge => "File too large"@,
            Self::FileTypeNotAllowed => "File type not allowed"@,
            Self::UploadTokenInvalid => "Upload token invalid"@,
            Self::UploadTokenExpired => "Upload token expired"@,
            Self::StorageQuotaExceeded => "Storage quota exceeded"@,
            Self::QRCodeNotFound => "QR code not found"@,
            Self::QRCodeExpired => "QR code expired"@,
            Self::QRCodeUsed => "QR code used"@,
            Self::QRCodeRevoked => "QR code revoked"@,
            Self::QRCodeLimitExceeded => "QR code limit exceeded"@,
            Self::DeviceNotFound => "Device not found"@,
            Self::DeviceLimitExceeded => "Device limit exceeded"@,
            Self::DeviceNotVerified => "Device not verified"@,
        }
    }

    /// Get the error code message
    pub fn message(&self) -> (r: &'static str)
        ensures
            r@ == self.message_spec(),
    {
        match self {
            // Success
            Self::Success => "Operation successful",

            // System Errors (1-999)
            Self::SystemError => "System error",
            Self::SystemBusy => "System busy, please retry later",
            Self::ServiceUnavailable => "Service unavailable",
            Self::InternalError => "Internal error",
            Self::Timeout => "Operation timeout",
            Self::Maintenance => "System maintenance",
            Self::DatabaseError => "Database error",
            Self::CacheError => "Cache error",
            Self::NetworkError => "Network error",
            Self::ProtocolError => "Protocol error",
            Self::UnsupportedProtocol => "Unsupported protocol version",
            Self::InvalidPacket => "Invalid packet",
            Self::PacketTooLarge => "Packet too large",
            Self::EncodingError => "Encoding error",
            Self::DecodingError => "Decoding error",
            Self::VersionError => "Version error",
            Self::ClientVersionTooOld => "Client version too old",
            Self::ClientVersionTooNew => "Client version too new",
            Self::IncompatibleVersion => "Incompatible version",
            Self::DeprecatedApi => "API deprecated",

            // Common Errors (10000-19999)
            Self::AuthRequired => "Authentication required",
            Self::InvalidToken => "Invalid token",
            Self::TokenExpired => "Token expired",
            Self::TokenRevoked => "Token revoked",
            Self::PermissionDenied => "Permission denied",
            Self::SessionExpired => "Session expired",
            Self::SessionNotFound => "Session not found",
            Self::UserBanned => "User banned",
            Self::IpNotAllowed => "IP address not allowed",
            Self::InvalidParams => "Invalid parameters",
            Self::MissingRequiredParam => "Missing required parameter",
            Self::InvalidParamType => "Invalid parameter type",
            Self::ParamOutOfRange => "Parameter out of range",
            Self::InvalidFormat => "Invalid format",
            Self::InvalidJson => "Invalid JSON format",
            Self::PayloadTooLarge => "Payload too large",
            Self::OperationNotAllowed => "Operation not allowed",
            Self::ResourceNotFound => "Resource not found",
            Self::ResourceAlreadyExists => "Resource already exists",
            Self::ResourceDeleted => "Resource deleted",
            Self::DuplicateOperation => "Duplicate operation",
            Self::OperationConflict => "Operation conflict",
            Self::RateLimitExceeded => "Rate limit exceeded",
            Self::DailyQuotaExceeded => "Daily quota exceeded",
            Self::MonthlyQuotaExceeded => "Monthly quota exceeded",
            Self::ConcurrentLimitExceeded => "Concurrent limit exceeded",

            // Business Errors (20000-65535)
            Self::MessageNotFound => "Message not found",
            Self::MessageDeleted => "Message deleted",
            Self::MessageRevoked => "Message revoked",
            Self::MessageSendFailed => "Message send failed",
            Self::MessageTooLarge => "Message too large",
            Self::MessageTypeInvalid => "Invalid message type",
            Self::MessageContentInvalid => "Invalid message content",
            Self::MessageCannotRevoke => "Message cannot be revoked (timeout)",
            Self::MessageAlreadyRead => "Message already read",
            Self::SendMessageTooFast => "Send message too fast",
            Self::OfflineMessageFull => "Offline message queue full",
            Self::OfflineMessageExpired => "Offline message expired",
            Self::UserNotFound => "User not found",
            Self::UserAlreadyExists => "User already exists",
            Self::UserDeleted => "User deleted",
            Self::UserBannedAlt => "User banned",
            Self::UserNotActive => "User not active",
            Self::NicknameInvalid => "Invalid nickname",
            Self::AvatarInvalid => "Invalid avatar",
            Self::GroupNotFound => "Group not found",
            Self::GroupDeleted => "Group deleted",
            Self::GroupFull => "Group full",
            Self::NotGroupMember => "Not a group member",
            Self::NotGroupAdmin => "Not a group admin",
            Self::NotGroupOwner => "Not a group owner",
            Self::GroupMuted => "Group muted",
            Self::MemberMuted => "Member muted",
            Self::MemberAlreadyInGroup => "Member already in group",
            Self::CannotRemoveOwner => "Cannot remove owner",
            Self::JoinApprovalRequired => "Join approval required",
            Self::FriendNotFound => "Friend not found",
            Self::AlreadyFriends => "Already friends",
            Self::BlockedByUser => "Blocked by user",
            Self::UserInBlacklist => "User in blacklist",
            Self::ChannelNotFound => "Channel not found",
            Self::ChannelDeleted => "Channel deleted",
            Self::ChannelMuted => "Channel muted",
            Self::FileNotFound => "File not found",
            Self::FileUploadFailed => "File upload failed",
            Self::FileTooLarge => "File too large",
            Self::FileTypeNotAllowed => "File type not allowed",
            Self::UploadTokenInvalid => "Upload token invalid",
            Self::UploadTokenExpired => "Upload token expired",
            Self::StorageQuotaExceeded => "Storage quota exceeded",
            Self::QRCodeNotFound => "QR code not found",
            Self::QRCodeExpired => "QR code expired",
            Self::QRCodeUsed => "QR code used",
            Self::QRCodeRevoked => "QR code revoked",
            Self::QRCodeLimitExceeded => "QR code limit exceeded",
            Self::DeviceNotFound => "Device not found",
            Self::DeviceLimitExceeded => "Device limit exceeded",
            Self::DeviceNotVerified => "Device not verified",
        }
    }

    /// The error code with value `code`, if there is one.
    pub fn from_code(code: u32) -> (r: Option<Self>)
        ensures
            match r {
                Some(e) => e.code_spec() == code,
                None => forall|e: ErrorCode| e.code_spec() != code,
            },
    {
        match code {
            0 => Some(Self::Success),
            1 => Some(Self::SystemError),
            2 => Some(Self::SystemBusy),
            3 => Some(Self::ServiceUnavailable),
            4 => Some(Self::InternalError),
            5 => Some(Self::Timeout),
            6 => Some(Self::Maintenance),
            7 => Some(Self::DatabaseError),
            8 => Some(Self::CacheError),
            9 => Some(Self::NetworkError),
            100 => Some(Self::ProtocolError),
            101 => Some(Self::UnsupportedProtocol),
            102 => Some(Self::InvalidPacket),
            103 => Some(Self::PacketTooLarge),
            104 => Some(Self::EncodingError),
            105 => Some(Self::DecodingError),
            200 => Some(Self::VersionError),
            201 => Some(Self::ClientVersionTooOld),
            202 => Some(Self::ClientVersionTooNew),
            203 => Some(Self::IncompatibleVersion),
            204 => Some(Self::DeprecatedApi),
            10000 => Some(Self::AuthRequired),
            10001 => Some(Self::InvalidToken),
            10002 => Some(Self::TokenExpired),
            10003 => Some(Self::TokenRevoked),
            10004 => Some(Self::PermissionDenied),
            10005 => Some(Self::SessionExpired),
            10006 => Some(Self::SessionNotFound),
            10007 => Some(Self::UserBanned),
            10008 => Some(Self::IpNotAllowed),
            10100 => Some(Self::InvalidParams),
            10101 => Some(Self::MissingRequiredParam),
            10102 => Some(Self::InvalidParamType),
            10103 => Some(Self::ParamOutOfRange),
            10104 => Some(Self::InvalidFormat),
            10105 => Some(Self::InvalidJson),
            10106 => Some(Self::PayloadTooLarge),
            10200 => Some(Self::OperationNotAllowed),
            10201 => Some(Self::ResourceNotFound),
            10202 => Some(Self::ResourceAlreadyExists),
            10203 => Some(Self::ResourceDeleted),
            10204 => Some(Self::DuplicateOperation),
            10205 => Some(Self::OperationConflict),
            10300 => Some(Self::RateLimitExceeded),
            10301 => Some(Self::DailyQuotaExceeded),
            10302 => Some(Self::MonthlyQuotaExceeded),
            10303 => Some(Self::ConcurrentLimitExceeded),
            20000 => Some(Self::MessageNotFound),
            20001 => Some(Self::MessageDeleted),
            20002 => Some(Self::MessageRevoked),
            20003 => Some(Self::MessageSendFailed),
            20004 => Some(Self::MessageTooLarge),
            20005 => Some(Self::MessageTypeInvalid),
            20006 => Some(Self::MessageContentInvalid),
            20007 => Some(Self::MessageCannotRevoke),
            20008 => Some(Self::MessageAlreadyRead),
            20009 => Some(Self::SendMessageTooFast),
            20100 => Some(Self::OfflineMessageFull),
            20101 => Some(Self::OfflineMessageExpired),
            20200 => Some(Self::UserNotFound),
            20201 => Some(Self::UserAlreadyExists),
            20202 => Some(Self::UserDeleted),
            20203 => Some(Self::UserBannedAlt),
            20204 => Some(Self::UserNotActive),
            20205 => Some(Self::NicknameInvalid),
            20206 => Some(Self::AvatarInvalid),
            20300 => Some(Self::GroupNotFound),
            20301 => Some(Self::GroupDeleted),
            20302 => Some(Self::GroupFull),
            20303 => Some(Self::NotGroupMember),
            20304 => Some(Self::NotGroupAdmin),
            20305 => Some(Self::NotGroupOwner),
            20306 => Some(Self::GroupMuted),
            20307 => Some(Self::MemberMuted),
            20308 => Some(Self::MemberAlreadyInGroup),
            20309 => Some(Self::CannotRemoveOwner),
            20310 => Some(Self::JoinApprovalRequired),
            20400 => Some(Self::FriendNotFound),
            20401 => Some(Self::AlreadyFriends),
            20402 => Some(Self::BlockedByUser),
            20403 => Some(Self::UserInBlacklist),
            20500 => Some(Self::ChannelNotFound),
            20501 => Some(Self::ChannelDeleted),
            20502 => Some(Self::ChannelMuted),
            20600 => Some(Self::FileNotFound),
            20601 => Some(Self::FileUploadFailed),
            20602 => Some(Self::FileTooLarge),
            20603 => Some(Self::FileTypeNotAllowed),
            20604 => Some(Self::UploadTokenInvalid),
            20605 => Some(Self::UploadTokenExpired),
            20606 => Some(Self::StorageQuotaExceeded),
            20700 => Some(Self::QRCodeNotFound),
            20701 => Some(Self::QRCodeExpired),
            20702 => Some(Self::QRCodeUsed),
            20703 => Some(Self::QRCodeRevoked),
            20704 => Some(Self::QRCodeLimitExceeded),
            20800 => Some(Self::DeviceNotFound),
            20801 => Some(Self::DeviceLimitExceeded),
            20802 => Some(Self::DeviceNotVerified),
            _ => None,
        }
    }

    /// Check if this is a system error (first priority)
    pub fn is_system_error(&self) -> (r: bool)
        ensures
            r == (1 <= self.code_spec() < 1000),
    {
        let code = self.code();
        code >= 1 && code < 1000
    }

    /// Check if this is a common error
    pub fn is_common_error(&self) -> (r: bool)
        ensures
            r == (10000 <= self.code_spec() < 20000),
    {
        let code = self.code();
        code >= 10000 && code < 20000
    }

    /// Check if this is a business error
    pub fn is_business_error(&self) -> (r: bool)
        ensures
            r == (20000 <= self.code_spec()),
    {
        let code = self.code();
        code >= 20000
    }
}

impl Default for ErrorCode {
    fn default() -> (r: Self)
        ensures
            r == ErrorCode::Success,
    {
        Self::Success
    }
}

impl ErrorCode {
    /// The error code as text: its value in brackets, then its message.
    pub fn to_string(&self) -> (r: String)
        ensures
            r@ == "["@ + decimal(self.code_spec() as nat) + "] "@ + self.message_spec(),
    {
        let mut s = String::from_str("[");
        let digits = decimal_string(self.code() as u64);
        s.append(digits.as_str());
        s.append("] ");
        s.append(self.message());
        s
    }
}

} // verus!
