use privchat_protocol::commit_log::CommitLog;
use privchat_protocol::coordinator::SyncCoordinator;
use privchat_protocol::decision::{CommandRewrite, DecisionEngine};
use privchat_protocol::rpc::sync::{
    BatchGetChannelPtsRequest, ChannelIdentifier, ClientSubmitRequest, GetChannelPtsRequest,
    GetDifferenceRequest, ServerCommit, ServerDecision, SyncEntitiesRequest,
};
use privchat_protocol::sync_error::SyncError;
use serde_json::Value;

fn engine() -> DecisionEngine {
    DecisionEngine {
        blocked_senders: vec![666],
        rejected_command_types: vec!["spam".to_string()],
        rewrites: vec![CommandRewrite {
            from: "text".to_string(),
            to: "send_message".to_string(),
            reason: "legacy command type renamed".to_string(),
        }],
        blocked_reason: "sender may not post".to_string(),
        rejected_reason: "content violates policy".to_string(),
    }
}

fn submission(channel: u64, local_id: u64, last_pts: u64, command: &str, payload: &str) -> ClientSubmitRequest {
    ClientSubmitRequest {
        local_message_id: local_id,
        channel_id: channel,
        channel_type: 2,
        last_pts,
        command_type: command.to_string(),
        payload: Value::String(payload.to_string()),
        client_timestamp: 1700000000000,
        device_id: Some("device_001".to_string()),
    }
}

fn difference(channel: u64, last_pts: u64, limit: u32) -> GetDifferenceRequest {
    GetDifferenceRequest { channel_id: channel, channel_type: 2, last_pts, limit: Some(limit) }
}

#[test]
fn test_server_decision() {
    let decision_accepted = ServerDecision::Accepted;
    let decision_transformed = ServerDecision::Transformed { reason: "Content filtered".to_string() };
    let decision_rejected = ServerDecision::Rejected { reason: "Spam detected".to_string() };

    assert_eq!(decision_accepted, ServerDecision::Accepted);
    assert!(matches!(decision_transformed, ServerDecision::Transformed { .. }));
    assert!(matches!(decision_rejected, ServerDecision::Rejected { .. }));
}

#[test]
fn channel_scenario_submit_resubmit_and_catch_up() {
    let mut c = SyncCoordinator::new(engine());
    let r1 = c.submit(1, submission(42, 1, 0, "send_message", "A"), 10).unwrap();
    assert_eq!(r1.decision, ServerDecision::Accepted);
    assert_eq!(r1.pts, Some(1));

    let again = c.submit(1, submission(42, 1, 0, "send_message", "A"), 11).unwrap();
    assert_eq!(again.decision, ServerDecision::Accepted);
    assert_eq!(again.pts, Some(1));
    assert_eq!(again.server_msg_id, r1.server_msg_id);
    assert_eq!(c.get_channel_pts(&GetChannelPtsRequest { channel_id: 42, channel_type: 2 }).current_pts, 1);

    let r2 = c.submit(1, submission(42, 2, 1, "send_message", "B"), 12).unwrap();
    assert_eq!(r2.decision, ServerDecision::Accepted);
    assert_eq!(r2.pts, Some(2));

    let diff = c.get_difference(&difference(42, 0, 10));
    assert_eq!(diff.commits.len(), 2);
    assert_eq!(diff.commits[0].pts, 1);
    assert_eq!(diff.commits[0].content, Value::String("A".to_string()));
    assert_eq!(diff.commits[1].pts, 2);
    assert_eq!(diff.commits[1].content, Value::String("B".to_string()));
    assert!(!diff.has_more);
    assert_eq!(diff.current_pts, 2);
}

#[test]
fn policy_violation_is_rejected_without_pts() {
    let mut c = SyncCoordinator::new(engine());
    c.submit(1, submission(42, 1, 0, "send_message", "A"), 10).unwrap();
    c.submit(1, submission(42, 2, 1, "send_message", "B"), 11).unwrap();

    let r = c.submit(1, submission(42, 3, 2, "spam", "buy now"), 12).unwrap();
    assert_eq!(r.decision, ServerDecision::Rejected { reason: "content violates policy".to_string() });
    assert_eq!(r.pts, None);
    assert_eq!(r.server_msg_id, None);
    assert_eq!(r.current_pts, 2);
    assert_eq!(c.get_channel_pts(&GetChannelPtsRequest { channel_id: 42, channel_type: 2 }).current_pts, 2);

    // A retry gets the same answer, still without a pts.
    let again = c.submit(1, submission(42, 3, 2, "spam", "buy now"), 13).unwrap();
    assert_eq!(again.decision, r.decision);
    assert_eq!(again.pts, None);
    assert_eq!(c.get_difference(&difference(42, 0, 10)).commits.len(), 2);
}

#[test]
fn entity_scenario_tombstone_is_synced() {
    let mut c = SyncCoordinator::new(engine());
    let v1 = c.bump_entity("group_member".to_string(), "7:9".to_string(), Value::Bool(true)).unwrap();
    assert_eq!(v1, 1);
    let v2 = c.mark_entity_deleted("group_member".to_string(), "7:9".to_string()).unwrap();
    assert_eq!(v2, 2);

    let r = c.sync_entities(&SyncEntitiesRequest {
        entity_type: "group_member".to_string(),
        since_version: Some(0),
        scope: None,
        limit: None,
    });
    assert_eq!(r.items.len(), 1);
    assert!(r.items[0].deleted);
    assert_eq!(r.items[0].version, 2);
    assert_eq!(r.items[0].entity_id, "7:9");
    assert_eq!(r.items[0].payload, None);
    assert_eq!(r.next_version, 2);
    assert!(!r.has_more);
    assert_eq!(r.min_version, None);
}

#[test]
fn pts_increase_without_gaps_across_channels() {
    let mut c = SyncCoordinator::new(engine());
    for i in 1..=5u64 {
        let r = c.submit(3, submission(7, i, 0, "send_message", "x"), 0).unwrap();
        assert_eq!(r.pts, Some(i));
        assert_eq!(r.has_gap, i > 1);
    }
    let other = c.submit(3, submission(8, 100, 0, "send_message", "y"), 0).unwrap();
    assert_eq!(other.pts, Some(1));
    let diff = c.get_difference(&difference(7, 0, 100));
    let pts: Vec<u64> = diff.commits.iter().map(|c| c.pts).collect();
    assert_eq!(pts, vec![1, 2, 3, 4, 5]);
    let ids: Vec<u64> = diff.commits.iter().map(|c| c.server_msg_id).collect();
    assert_eq!(ids, vec![1, 2, 3, 4, 5]);
}

#[test]
fn paging_through_difference_returns_every_commit_once() {
    let mut c = SyncCoordinator::new(engine());
    for i in 1..=7u64 {
        c.submit(1, submission(5, i, 0, "send_message", "m"), 0).unwrap();
    }
    let mut last = 2;
    let mut seen = Vec::new();
    loop {
        let page = c.get_difference(&difference(5, last, 2));
        seen.extend(page.commits.iter().map(|c| c.pts));
        if !page.has_more {
            break;
        }
        last = page.commits.last().unwrap().pts;
    }
    assert_eq!(seen, vec![3, 4, 5, 6, 7]);
    let default_page = c.get_difference(&GetDifferenceRequest { channel_id: 5, channel_type: 2, last_pts: 0, limit: None });
    assert_eq!(default_page.commits.len(), 7);
}

#[test]
fn transform_and_block_decisions() {
    let mut c = SyncCoordinator::new(engine());
    let t = c.submit(1, submission(9, 1, 0, "text", "hi"), 5).unwrap();
    assert_eq!(t.decision, ServerDecision::Transformed { reason: "legacy command type renamed".to_string() });
    assert_eq!(t.pts, Some(1));
    let diff = c.get_difference(&difference(9, 0, 10));
    assert_eq!(diff.commits[0].message_type, "send_message");
    assert_eq!(diff.commits[0].local_message_id, Some(1));
    assert_eq!(diff.commits[0].sender_id, 1);

    let b = c.submit(666, submission(9, 1, 0, "send_message", "hi"), 6).unwrap();
    assert_eq!(b.decision, ServerDecision::Rejected { reason: "sender may not post".to_string() });
    assert!(b.has_gap);
    assert_eq!(b.current_pts, 1);
}

#[test]
fn batch_channel_pts_in_request_order() {
    let mut c = SyncCoordinator::new(engine());
    c.submit(1, submission(1, 1, 0, "send_message", "a"), 0).unwrap();
    c.submit(1, submission(2, 2, 0, "send_message", "b"), 0).unwrap();
    c.submit(1, submission(2, 3, 0, "send_message", "c"), 0).unwrap();
    let r = c.batch_get_channel_pts(&BatchGetChannelPtsRequest {
        channels: vec![
            ChannelIdentifier { channel_id: 2, channel_type: 2 },
            ChannelIdentifier { channel_id: 3, channel_type: 2 },
            ChannelIdentifier { channel_id: 1, channel_type: 2 },
            ChannelIdentifier { channel_id: 1, channel_type: 1 },
        ],
    });
    let pts: Vec<u64> = r.channel_pts_map.iter().map(|i| i.current_pts).collect();
    assert_eq!(pts, vec![2, 0, 1, 0]);
}

#[test]
fn entity_sync_pages_converge_to_full_sync() {
    let mut c = SyncCoordinator::new(engine());
    for id in ["a", "b", "c", "d"] {
        c.bump_entity("friend".to_string(), id.to_string(), Value::Null).unwrap();
    }
    c.bump_entity("friend".to_string(), "b".to_string(), Value::Bool(false)).unwrap();
    c.mark_entity_deleted("friend".to_string(), "c".to_string()).unwrap();

    let mut since = 0;
    let mut got = Vec::new();
    loop {
        let r = c.sync_entities(&SyncEntitiesRequest {
            entity_type: "friend".to_string(),
            since_version: Some(since),
            scope: None,
            limit: Some(1),
        });
        got.extend(r.items.iter().map(|i| (i.entity_id.clone(), i.version, i.deleted)));
        since = r.next_version;
        if !r.has_more {
            break;
        }
    }
    let full = c.sync_entities(&SyncEntitiesRequest { entity_type: "friend".to_string(), since_version: None, scope: None, limit: None });
    let all: Vec<(String, u64, bool)> = full.items.iter().map(|i| (i.entity_id.clone(), i.version, i.deleted)).collect();
    assert_eq!(got, all);
    assert_eq!(
        all,
        vec![
            ("a".to_string(), 1, false),
            ("d".to_string(), 4, false),
            ("b".to_string(), 5, false),
            ("c".to_string(), 6, true),
        ]
    );
    assert_eq!(since, 6);
    assert_eq!(full.next_version, 6);
}

#[test]
fn pruned_tombstones_send_stale_clients_back_to_zero() {
    let mut c = SyncCoordinator::new(engine());
    c.bump_entity("group".to_string(), "g1".to_string(), Value::Null).unwrap();
    c.mark_entity_deleted("group".to_string(), "g1".to_string()).unwrap();
    c.bump_entity("group".to_string(), "g2".to_string(), Value::Null).unwrap();
    c.prune_entity_tombstones("group".to_string(), 2);

    let stale = c.sync_entities(&SyncEntitiesRequest { entity_type: "group".to_string(), since_version: Some(1), scope: None, limit: None });
    assert_eq!(stale.min_version, Some(2));
    assert!(stale.items.is_empty());
    assert_eq!(stale.next_version, 0);

    let fresh = c.sync_entities(&SyncEntitiesRequest { entity_type: "group".to_string(), since_version: Some(0), scope: None, limit: None });
    assert_eq!(fresh.min_version, None);
    assert_eq!(fresh.items.len(), 1);
    assert_eq!(fresh.items[0].entity_id, "g2");
    assert_eq!(fresh.next_version, 3);

    let unknown = c.sync_entities(&SyncEntitiesRequest { entity_type: "user".to_string(), since_version: Some(4), scope: None, limit: None });
    assert!(unknown.items.is_empty());
    assert_eq!(unknown.next_version, 4);
}

#[test]
fn commit_log_refuses_out_of_order_pts() {
    let mut log = CommitLog::new();
    let commit = |pts: u64| ServerCommit {
        pts,
        server_msg_id: pts,
        local_message_id: None,
        channel_id: 1,
        channel_type: 1,
        message_type: "send_message".to_string(),
        content: Value::Null,
        server_timestamp: 0,
        sender_id: 1,
        sender_info: None,
    };
    assert_eq!(log.append(commit(3)), Ok(()));
    assert_eq!(log.append(commit(3)), Err(SyncError::OutOfOrder));
    assert_eq!(log.append(commit(2)), Err(SyncError::OutOfOrder));
    assert_eq!(log.append(commit(5)), Ok(()));
    assert_eq!(log.last_pts(1, 1), 5);
    let (page, more) = log.range(1, 1, 3, 10);
    assert_eq!(page.len(), 1);
    assert!(!more);
}
