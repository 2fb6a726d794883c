use vstd::prelude::*;

verus! {

/// 广播频道相关 RPC（用于订阅号/频道功能）

/// 订阅广播频道请求
///
/// RPC路由: `channel/broadcast/subscribe`
#[derive(Debug, Clone)]
pub struct ChannelBroadcastSubscribeRequest {
    /// 用户ID（服务器端从 ctx 填充）
    pub user_id: u64,

    /// 广播频道ID
    pub channel_id: u64,
}

/// 订阅广播频道响应
///
/// RPC路由: `channel/broadcast/subscribe`
#[derive(Debug, Clone)]
pub struct ChannelBroadcastSubscribeResponse {
    pub status: String,
    pub message: String,
    pub channel_id: u64,
    pub user_id: u64,
    pub subscribed_at: String,
}

/// 通用动作响应（当前 create/publish/list/content/list 在服务端返回该形态）
#[derive(Debug, Clone)]
pub struct ChannelBroadcastActionResponse {
    pub status: String,
    pub action: String,
    pub timestamp: String,
}

/// 创建广播频道请求
///
/// RPC路由: `channel/broadcast/create`
#[derive(Debug, Clone)]
pub struct ChannelBroadcastCreateRequest {
    pub name: String,
    pub description: Option<String>,
    pub avatar_url: Option<String>,
}

/// 创建广播频道响应
///
/// RPC路由: `channel/broadcast/create`
pub type ChannelBroadcastCreateResponse = ChannelBroadcastActionResponse;

/// 获取广播频道列表请求
///
/// RPC路由: `channel/broadcast/list`
#[derive(Debug, Clone)]
pub struct ChannelBroadcastListRequest {
    pub page: Option<u32>,
    pub page_size: Option<u32>,
}

/// 获取广播频道列表响应
///
/// RPC路由: `channel/broadcast/list`
pub type ChannelBroadcastListResponse = ChannelBroadcastActionResponse;

/// 频道内容发布请求
///
/// RPC路由: `channel/content/publish`
#[derive(Debug, Clone)]
pub struct ChannelContentPublishRequest {
    pub channel_id: u64,
    pub content: String,
    pub title: Option<String>,
    pub content_type: Option<String>,
}

/// 频道内容发布响应
///
/// RPC路由: `channel/content/publish`
pub type ChannelContentPublishResponse = ChannelBroadcastActionResponse;

/// 频道内容列表请求
///
/// RPC路由: `channel/content/list`
#[derive(Debug, Clone)]
pub struct ChannelContentListRequest {
    pub channel_id: u64,
    pub page: Option<u32>,
    pub page_size: Option<u32>,
}

/// 频道内容列表响应
///
/// RPC路由: `channel/content/list`
pub type ChannelContentListResponse = ChannelBroadcastActionResponse;

} // verus!
