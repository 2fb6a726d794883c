use vstd::prelude::*;
use std::collections::HashMap;

verus! {

/// 消息反应（Reaction）相关 RPC

/// 添加消息反应请求
///
/// RPC路由: `message/reaction/add`
#[derive(Debug, Clone)]
pub struct MessageReactionAddRequest {
    /// 服务端消息ID
    pub server_message_id: u64,
    /// 频道ID（可选，用于验证）
    pub channel_id: Option<u64>,
    /// Emoji表情
    pub emoji: String,

    /// 用户ID（服务器端填充，客户端不可设置）
    pub user_id: u64,
}

/// 移除消息反应请求
///
/// RPC路由: `message/reaction/remove`
#[derive(Debug, Clone)]
pub struct MessageReactionRemoveRequest {
    /// 服务端消息ID
    pub server_message_id: u64,
    /// Emoji表情
    pub emoji: String,

    /// 用户ID（服务器端填充，客户端不可设置）
    pub user_id: u64,
}

/// 获取消息反应列表请求
///
/// RPC路由: `message/reaction/list`
#[derive(Debug, Clone)]
pub struct MessageReactionListRequest {
    /// 服务端消息ID
    pub server_message_id: u64,

    /// 用户ID（服务器端填充，客户端不可设置）
    pub user_id: u64,
}

/// 获取消息反应统计请求
///
/// RPC路由: `message/reaction/stats`
#[derive(Debug, Clone)]
pub struct MessageReactionStatsRequest {
    /// 服务端消息ID
    pub server_message_id: u64,

    /// 用户ID（服务器端填充，客户端不可设置）
    pub user_id: u64,
}

/// 添加消息反应响应
///
/// RPC路由: `message/reaction/add`
/// 简单操作，返回 true（成功/失败由协议层 code 处理）
pub type MessageReactionAddResponse = bool;

/// 移除消息反应响应
///
/// RPC路由: `message/reaction/remove`
/// 简单操作，返回 true（成功/失败由协议层 code 处理）
pub type MessageReactionRemoveResponse = bool;

/// 获取消息反应列表响应
///
/// RPC路由: `message/reaction/list`
#[derive(Debug, Clone)]
pub struct MessageReactionListResponse {
    pub success: bool,
    pub reactions: HashMap<String, Vec<u64>>,
    pub total_count: usize,
}

/// 获取消息反应统计响应
///
/// RPC路由: `message/reaction/stats`
#[derive(Debug, Clone)]
pub struct MessageReactionStatsData {
    pub reactions: HashMap<String, Vec<u64>>,
    pub total_count: usize,
}

/// 获取消息反应统计响应
///
/// RPC路由: `message/reaction/stats`
#[derive(Debug, Clone)]
pub struct MessageReactionStatsResponse {
    pub success: bool,
    pub stats: MessageReactionStatsData,
}

} // verus!
