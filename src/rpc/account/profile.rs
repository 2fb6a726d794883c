use vstd::prelude::*;
use std::collections::HashMap;

verus! {

/// 账号资料相关 RPC

/// 获取个人资料请求
///
/// RPC路由: `account/profile/get`
#[derive(Debug, Clone)]
pub struct AccountProfileGetRequest {
    /// 用户ID（服务器端填充，客户端不需要传）
    pub user_id: u64,
}

/// 更新个人资料请求
///
/// RPC路由: `account/profile/update`
#[derive(Debug, Clone)]
pub struct AccountProfileUpdateRequest {
    /// 显示名称（可选）
    pub display_name: Option<String>,
    /// 头像 URL（可选）
    pub avatar_url: Option<String>,
    /// 个人简介（可选）
    pub bio: Option<String>,
    /// 兼容扩展字段（可选）
    pub extra_fields: HashMap<String, String>,
    /// 用户ID（服务器端填充，客户端不需要传）
    pub user_id: u64,
}

/// 获取个人资料响应
///
/// RPC路由: `account/profile/get`
#[derive(Debug, Clone)]
pub struct AccountProfileGetResponse {
    pub status: String,
    pub action: String,
    pub timestamp: String,
}

/// 更新个人资料响应
///
/// RPC路由: `account/profile/update`
#[derive(Debug, Clone)]
pub struct AccountProfileUpdateResponse {
    pub status: String,
    pub action: String,
    pub timestamp: String,
}

} // verus!
