use vstd::prelude::*;

verus! {

/// 消息历史相关 RPC

/// 获取消息历史请求
///
/// RPC路由: `message/history/get`
#[derive(Debug, Clone)]
pub struct MessageHistoryGetRequest {
    /// 用户ID
    pub user_id: u64,
    /// 频道ID
    pub channel_id: u64,
    /// 起始服务端消息ID（可选，用于分页）
    pub before_server_message_id: Option<u64>,
    /// 限制数量（可选，默认50）
    pub limit: Option<u32>,
}

/// 消息历史响应
///
/// RPC路由: `message/history/get`
#[derive(Debug, Clone)]
pub struct MessageHistoryItem {
    pub message_id: u64,
    pub channel_id: u64,
    pub sender_id: u64,
    pub content: String,
    pub message_type: String,
    pub timestamp: String,
    pub reply_to_message_id: Option<u64>,
    pub metadata: Option<serde_json::Map<String, serde_json::Value>>,
    pub revoked: bool,
    pub revoked_at: Option<i64>,
    pub revoked_by: Option<u64>,
}

/// 消息历史响应
///
/// RPC路由: `message/history/get`
#[derive(Debug, Clone)]
pub struct MessageHistoryResponse {
    pub messages: Vec<MessageHistoryItem>,
    pub total: usize,
    pub has_more: bool,
}

} // verus!
