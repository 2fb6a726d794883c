use vstd::prelude::*;

verus! {

/// 群组设置相关 RPC

/// 更新群组设置请求
///
/// RPC路由: `group/settings/update`
#[derive(Debug, Clone)]
pub struct GroupSettingsPatch {
    /// 是否开启加群审批（可选）
    pub join_need_approval: Option<bool>,
    /// 成员是否可邀请（可选）
    pub member_can_invite: Option<bool>,
    /// 是否全员禁言（可选）
    pub all_muted: Option<bool>,
    /// 最大成员数（可选）
    pub max_members: Option<u32>,
    /// 群公告（可选）
    pub announcement: Option<String>,
    /// 群描述（可选）
    pub description: Option<String>,
}

/// 更新群组设置请求
///
/// RPC路由: `group/settings/update`
#[derive(Debug, Clone)]
pub struct GroupSettingsUpdateRequest {
    /// 群组ID
    pub group_id: u64,
    /// 操作者ID
    pub operator_id: u64,
    /// 更新项
    pub settings: GroupSettingsPatch,
}

/// 获取群组设置请求
///
/// RPC路由: `group/settings/get`
#[derive(Debug, Clone)]
pub struct GroupSettingsGetRequest {
    /// 群组ID
    pub group_id: u64,
    /// 用户ID
    pub user_id: u64,
}

/// 全员禁言请求
///
/// RPC路由: `group/settings/mute_all`
#[derive(Debug, Clone)]
pub struct GroupMuteAllRequest {
    /// 群组ID
    pub group_id: u64,
    /// 操作者ID
    pub operator_id: u64,
    /// 是否全员禁言
    pub muted: bool,
}

/// 更新群组设置响应
///
/// RPC路由: `group/settings/update`
#[derive(Debug, Clone)]
pub struct GroupSettingsUpdateResponse {
    pub success: bool,
    pub group_id: String,
    pub message: String,
    pub updated_count: u32,
    pub updated_at: String,
}

/// 获取群组设置响应
///
/// RPC路由: `group/settings/get`
#[derive(Debug, Clone)]
pub struct GroupSettingsData {
    pub join_need_approval: bool,
    pub member_can_invite: bool,
    pub all_muted: bool,
    pub max_members: usize,
    pub announcement: Option<String>,
    pub description: Option<String>,
    pub created_at: String,
    pub updated_at: String,
}

/// 获取群组设置响应
///
/// RPC路由: `group/settings/get`
#[derive(Debug, Clone)]
pub struct GroupSettingsGetResponse {
    pub group_id: u64,
    pub settings: GroupSettingsData,
}

/// 全员禁言响应
///
/// RPC路由: `group/settings/mute_all`
#[derive(Debug, Clone)]
pub struct GroupMuteAllResponse {
    pub success: bool,
    pub group_id: String,
    pub all_muted: bool,
    pub message: String,
    pub operator_id: String,
    pub updated_at: String,
}

} // verus!
