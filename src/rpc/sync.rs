//! Messages of the pts-based synchronisation protocol.
//!
//! pts (a per-channel, strictly increasing sequence number) is the
//! authoritative order; `local_message_id` makes submissions idempotent and
//! ties a commit back to the submission it came from; the server decides.
use vstd::prelude::*;

verus! {

/// A client's proposed operation.
///
/// RPC route: `sync/submit`
#[derive(Debug, Clone)]
pub struct ClientSubmitRequest {
    /// Client-chosen operation id (a Snowflake-style u64), the idempotency key.
    pub local_message_id: u64,
    /// Target channel.
    pub channel_id: u64,
    /// Channel type (1 = direct, 2 = group).
    pub channel_type: u8,
    /// Last pts the client knows of for this channel (gap detection).
    pub last_pts: u64,
    /// Operation type.
    pub command_type: String,
    /// Opaque operation payload.
    pub payload: serde_json::Value,
    /// Client time in milliseconds.
    pub client_timestamp: i64,
    /// Originating device, where the client names one.
    pub device_id: Option<String>,
}

/// The server's answer to a submission.
///
/// RPC route: `sync/submit`
#[derive(Debug, Clone)]
pub struct ClientSubmitResponse {
    /// What the server decided.
    pub decision: ServerDecision,
    /// Assigned pts (accepted or transformed only).
    pub pts: Option<u64>,
    /// Server message id (accepted or transformed only).
    pub server_msg_id: Option<u64>,
    /// Server time of the decision.
    pub server_timestamp: i64,
    /// The submission's `local_message_id`, echoed back.
    pub local_message_id: u64,
    /// The client was behind the channel when it submitted.
    pub has_gap: bool,
    /// The channel's pts after the submission.
    pub current_pts: u64,
}

/// Outcome of the decision step: a closed set, so that a rejected
/// submission cannot carry a pts.
#[derive(Debug, Clone, PartialEq, Eq)]
pub enum ServerDecision {
    /// Stored unchanged.
    Accepted,
    /// Stored after the server altered it.
    Transformed {
        /// What was altered.
        reason: String,
    },
    /// Not stored.
    Rejected {
        /// Why.
        reason: String,
    },
}

impl ServerDecision {
    /// A copy of the decision.
    pub fn duplicate(&self) -> (r: ServerDecision)
        ensures
            r == *self,
    {
        match self {
            ServerDecision::Accepted => ServerDecision::Accepted,
            ServerDecision::Transformed { reason } => ServerDecision::Transformed {
                reason: reason.clone(),
            },
            ServerDecision::Rejected { reason } => ServerDecision::Rejected { reason: reason.clone() },
        }
    }

    /// The decision lets the submission be committed.
    pub fn is_committed(&self) -> (r: bool)
        ensures
            r == !(self is Rejected),
    {
        !matches!(self, ServerDecision::Rejected { .. })
    }
}

/// Request for the commits a client is missing.
///
/// RPC route: `sync/get_difference`
#[derive(Debug, Clone)]
pub struct GetDifferenceRequest {
    /// Channel id.
    pub channel_id: u64,
    /// Channel type.
    pub channel_type: u8,
    /// Last pts the client knows of.
    pub last_pts: u64,
    /// Page size (100 when absent).
    pub limit: Option<u32>,
}

/// A page of commits.
///
/// RPC route: `sync/get_difference`
#[derive(Debug, Clone)]
pub struct GetDifferenceResponse {
    /// Commits in increasing pts.
    pub commits: Vec<ServerCommit>,
    /// The channel's current pts.
    pub current_pts: u64,
    /// More commits follow this page.
    pub has_more: bool,
}

/// One committed operation: the authoritative record.
#[derive(Debug, Clone)]
pub struct ServerCommit {
    /// Position in the channel.
    pub pts: u64,
    /// Server message id.
    pub server_msg_id: u64,
    /// The submission's local id, where it came from a client.
    pub local_message_id: Option<u64>,
    /// Channel id.
    pub channel_id: u64,
    /// Channel type.
    pub channel_type: u8,
    /// Operation type.
    pub message_type: String,
    /// Operation payload.
    pub content: serde_json::Value,
    /// Server time in milliseconds.
    pub server_timestamp: i64,
    /// Sender.
    pub sender_id: u64,
    /// Sender summary, where known.
    pub sender_info: Option<SenderInfo>,
}

/// Short user summary carried with a commit.
#[derive(Debug, Clone)]
pub struct SenderInfo {
    pub user_id: u64,
    pub username: String,
    pub nickname: Option<String>,
    pub avatar_url: Option<String>,
}

impl SenderInfo {
    /// A copy of the summary.
    pub fn duplicate(&self) -> (r: SenderInfo)
        ensures
            r == *self,
    {
        SenderInfo {
            user_id: self.user_id,
            username: self.username.clone(),
            nickname: match &self.nickname {
                Some(n) => Some(n.clone()),
                None => None,
            },
            avatar_url: match &self.avatar_url {
                Some(a) => Some(a.clone()),
                None => None,
            },
        }
    }
}

impl ServerCommit {
    /// A copy of the commit.
    pub fn duplicate(&self) -> (r: ServerCommit)
        ensures
            r == *self,
    {
        ServerCommit {
            pts: self.pts,
            server_msg_id: self.server_msg_id,
            local_message_id: self.local_message_id,
            channel_id: self.channel_id,
            channel_type: self.channel_type,
            message_type: self.message_type.clone(),
            content: self.content.clone(),
            server_timestamp: self.server_timestamp,
            sender_id: self.sender_id,
            sender_info: match &self.sender_info {
                Some(s) => Some(s.duplicate()),
                None => None,
            },
        }
    }
}

/// Request for a channel's current pts.
///
/// RPC route: `sync/get_channel_pts`
#[derive(Debug, Clone)]
pub struct GetChannelPtsRequest {
    pub channel_id: u64,
    pub channel_type: u8,
}

/// A channel's current pts.
///
/// RPC route: `sync/get_channel_pts`
#[derive(Debug, Clone)]
pub struct GetChannelPtsResponse {
    pub current_pts: u64,
}

/// Request for the current pts of several channels.
///
/// RPC route: `sync/batch_get_channel_pts`
#[derive(Debug, Clone)]
pub struct BatchGetChannelPtsRequest {
    pub channels: Vec<ChannelIdentifier>,
}

/// A channel.
#[derive(Debug, Clone)]
pub struct ChannelIdentifier {
    pub channel_id: u64,
    pub channel_type: u8,
}

/// The current pts of several channels, in the order asked for.
///
/// RPC route: `sync/batch_get_channel_pts`
#[derive(Debug, Clone)]
pub struct BatchGetChannelPtsResponse {
    pub channel_pts_map: Vec<ChannelPtsInfo>,
}

/// A channel and its current pts.
#[derive(Debug, Clone)]
pub struct ChannelPtsInfo {
    pub channel_id: u64,
    pub channel_type: u8,
    pub current_pts: u64,
}

/// Request for entity changes.
///
/// RPC route: `entity/sync_entities`
#[derive(Debug, Clone)]
pub struct SyncEntitiesRequest {
    /// Entity type: friend, group, channel, group_member, user,
    /// user_settings or user_block.
    pub entity_type: String,
    /// Version the client has synced to; absent or 0 asks for everything.
    pub since_version: Option<u64>,
    /// Optional scope, such as the group of a group_member sync.
    pub scope: Option<String>,
    /// Page size.
    pub limit: Option<u32>,
}

/// One entity's current state.
#[derive(Debug, Clone)]
pub struct SyncEntityItem {
    /// Entity id (a user, group or channel id).
    pub entity_id: String,
    /// Version of the entity's last change.
    pub version: u64,
    /// The entity was deleted (a tombstone).
    pub deleted: bool,
    /// Entity data; absent on a tombstone.
    pub payload: Option<serde_json::Value>,
}

impl SyncEntityItem {
    /// A copy of the item.
    pub fn duplicate(&self) -> (r: SyncEntityItem)
        ensures
            r == *self,
    {
        SyncEntityItem {
            entity_id: self.entity_id.clone(),
            version: self.version,
            deleted: self.deleted,
            payload: match &self.payload {
                Some(p) => Some(p.clone()),
                None => None,
            },
        }
    }
}

/// A page of entity changes.
#[derive(Debug, Clone)]
pub struct SyncEntitiesResponse {
    pub items: Vec<SyncEntityItem>,
    /// Version to pass as `since_version` on the next call.
    pub next_version: u64,
    /// More changes follow this page.
    pub has_more: bool,
    /// Set when the client is too far behind: it must drop its entity
    /// state and sync again from 0.
    pub min_version: Option<u64>,
}

} // verus!
