//! Sync coordinator: takes submissions and catch-up requests and drives the
//! sequencer, ledger, decision engine and commit log.
use vstd::prelude::*;
use crate::commit_log::{commits_in, pts_seq, CommitLog};
use crate::decision::DecisionEngine;
use crate::entity_store::{other_entity, survives_prune, sync_answer, sync_limit, sync_since, EntityVersionStore};
use crate::ledger::{IdempotencyLedger, LedgerRecord};
use crate::paging::{
    all_after, drain, lemma_drain_finishes, lemma_drain_gathers_all, lemma_split_index_bounds, page_has_more, page_of,
    strictly_increasing,
};
use crate::rpc::sync::{
    BatchGetChannelPtsRequest, BatchGetChannelPtsResponse, ChannelPtsInfo, ClientSubmitRequest,
    ClientSubmitResponse, GetChannelPtsRequest, GetChannelPtsResponse, GetDifferenceRequest,
    GetDifferenceResponse, ServerCommit, SyncEntitiesRequest, SyncEntitiesResponse,
    SyncEntityItem,
};
use crate::sequencer::{channel_key, pts_in, ChannelSequencer};
use crate::sync_error::SyncError;

verus! {

/// Page size of a catch-up request that names none.
pub const DEFAULT_DIFFERENCE_LIMIT: u32 = 100;

/// The page size a catch-up request asks for.
pub open spec fn difference_limit(req: GetDifferenceRequest) -> nat {
    match req.limit {
        Some(l) => l as nat,
        None => DEFAULT_DIFFERENCE_LIMIT as nat,
    }
}

/// The server side of message synchronisation.
pub struct SyncCoordinator {
    sequencer: ChannelSequencer,
    ledger: IdempotencyLedger,
    log: CommitLog,
    engine: DecisionEngine,
    entities: EntityVersionStore,
    next_server_msg_id: u64,
}

impl SyncCoordinator {
    /// pts counter of each channel.
    pub closed spec fn pts_map(&self) -> Map<(u64, u64), u64> {
        self.sequencer@
    }

    /// Commits of each channel.
    pub closed spec fn log_map(&self) -> Map<(u64, u64), Seq<ServerCommit>> {
        self.log@
    }

    /// Decision given to each `(submitter, local id)`.
    pub closed spec fn ledger_map(&self) -> Map<(u64, u64), LedgerRecord> {
        self.ledger@
    }

    /// The rules submissions are held to.
    pub closed spec fn engine_spec(&self) -> DecisionEngine {
        self.engine
    }

    /// Entity versions of every type.
    pub closed spec fn entities_spec(&self) -> EntityVersionStore {
        self.entities
    }

    /// Server message id the next commit gets.
    pub closed spec fn next_msg_id(&self) -> u64 {
        self.next_server_msg_id
    }

    /// A channel's current pts.
    pub open spec fn current_pts(&self, channel_id: u64, channel_type: u8) -> u64 {
        pts_in(self.pts_map(), channel_key(channel_id, channel_type))
    }

    /// A channel's commits.
    pub open spec fn commits(&self, channel_id: u64, channel_type: u8) -> Seq<ServerCommit> {
        commits_in(self.log_map(), channel_key(channel_id, channel_type))
    }

    /// Each channel's log holds exactly the pts 1, 2, ... up to the
    /// channel's current pts, in that order.
    pub closed spec fn wf(&self) -> bool {
        &&& self.sequencer.wf()
        &&& self.ledger.wf()
        &&& self.log.wf()
        &&& self.entities.wf()
        &&& forall|key: (u64, u64)| #[trigger]
            commits_in(self.log@, key).len() == pts_in(self.sequencer@, key)
        &&& forall|key: (u64, u64), i: int|
            0 <= i < commits_in(self.log@, key).len() ==> #[trigger] commits_in(
                self.log@,
                key,
            )[i].pts == i + 1
        &&& forall|lkey: (u64, u64)| #[trigger]
            self.ledger@.contains_key(lkey) && self.ledger@[lkey].decision is Rejected
                ==> self.ledger@[lkey].pts is None
        &&& forall|lkey: (u64, u64)| #[trigger]
            self.ledger@.contains_key(lkey) ==> Self::names_commit(self.log@, self.ledger@[lkey])
    }

    /// A recorded decision with a pts names the commit at that pts in its
    /// channel, by its server message id.
    pub open spec fn names_commit(log: Map<(u64, u64), Seq<ServerCommit>>, rec: LedgerRecord) -> bool {
        let s = commits_in(log, channel_key(rec.channel_id, rec.channel_type));
        rec.pts is Some ==> {
            &&& rec.server_msg_id is Some
            &&& 1 <= rec.pts->0 <= s.len()
            &&& s[rec.pts->0 - 1].server_msg_id == rec.server_msg_id->0
        }
    }

    /// The two coordinators hold the same state.
    pub open spec fn same_state(&self, other: &SyncCoordinator) -> bool {
        &&& self.pts_map() == other.pts_map()
        &&& self.log_map() == other.log_map()
        &&& self.ledger_map() == other.ledger_map()
        &&& self.engine_spec() == other.engine_spec()
        &&& self.entities_spec() == other.entities_spec()
        &&& self.next_msg_id() == other.next_msg_id()
    }

    /// What `submit` does: `c` is the state before, `d` the state after,
    /// `r` the answer, for a submission `req` by `sender` at server time
    /// `ts`.
    pub open spec fn submitted(
        c: &SyncCoordinator,
        d: &SyncCoordinator,
        sender: u64,
        req: ClientSubmitRequest,
        ts: i64,
        r: Result<ClientSubmitResponse, SyncError>,
    ) -> bool {
        let key = channel_key(req.channel_id, req.channel_type);
        let lkey = (sender, req.local_message_id);
        let cur = pts_in(c.pts_map(), key);
        let gap = req.last_pts < cur;
        if c.ledger_map().contains_key(lkey) {
            let rec = c.ledger_map()[lkey];
            &&& d.same_state(c)
            &&& r == Ok::<ClientSubmitResponse, SyncError>(
                ClientSubmitResponse {
                    decision: rec.decision,
                    pts: rec.pts,
                    server_msg_id: rec.server_msg_id,
                    server_timestamp: rec.server_timestamp,
                    local_message_id: req.local_message_id,
                    has_gap: gap,
                    current_pts: cur,
                },
            )
        } else {
            let (dec, mtype) = c.engine_spec().decide_spec(sender, req.command_type);
            if dec is Rejected {
                let rec = LedgerRecord {
                    decision: dec,
                    pts: None,
                    server_msg_id: None,
                    server_timestamp: ts,
                    channel_id: req.channel_id,
                    channel_type: req.channel_type,
                };
                &&& d.pts_map() == c.pts_map()
                &&& d.log_map() == c.log_map()
                &&& d.ledger_map() == c.ledger_map().insert(lkey, rec)
                &&& d.engine_spec() == c.engine_spec()
                &&& d.entities_spec() == c.entities_spec()
                &&& d.next_msg_id() == c.next_msg_id()
                &&& r == Ok::<ClientSubmitResponse, SyncError>(
                    ClientSubmitResponse {
                        decision: dec,
                        pts: None,
                        server_msg_id: None,
                        server_timestamp: ts,
                        local_message_id: req.local_message_id,
                        has_gap: gap,
                        current_pts: cur,
                    },
                )
            } else if cur == u64::MAX {
                d.same_state(c) && r == Err::<ClientSubmitResponse, SyncError>(
                    SyncError::SequenceExhausted,
                )
            } else if c.next_msg_id() == u64::MAX {
                d.same_state(c) && r == Err::<ClientSubmitResponse, SyncError>(
                    SyncError::MessageIdExhausted,
                )
            } else {
                let p = (cur + 1) as u64;
                let id = c.next_msg_id();
                let commit = ServerCommit {
                    pts: p,
                    server_msg_id: id,
                    local_message_id: Some(req.local_message_id),
                    channel_id: req.channel_id,
                    channel_type: req.channel_type,
                    message_type: mtype,
                    content: req.payload,
                    server_timestamp: ts,
                    sender_id: sender,
                    sender_info: None,
                };
                let rec = LedgerRecord {
                    decision: dec,
                    pts: Some(p),
                    server_msg_id: Some(id),
                    server_timestamp: ts,
                    channel_id: req.channel_id,
                    channel_type: req.channel_type,
                };
                &&& d.pts_map() == c.pts_map().insert(key, p)
                &&& d.log_map() == c.log_map().insert(key, commits_in(c.log_map(), key).push(commit))
                &&& d.ledger_map() == c.ledger_map().insert(lkey, rec)
                &&& d.engine_spec() == c.engine_spec()
                &&& d.entities_spec() == c.entities_spec()
                &&& d.next_msg_id() == id + 1
                &&& r == Ok::<ClientSubmitResponse, SyncError>(
                    ClientSubmitResponse {
                        decision: dec,
                        pts: Some(p),
                        server_msg_id: Some(id),
                        server_timestamp: ts,
                        local_message_id: req.local_message_id,
                        has_gap: gap,
                        current_pts: p,
                    },
                )
            }
        }
    }

    /// A coordinator with no channels, commits or decisions, holding
    /// submissions to `engine`.
    pub fn new(engine: DecisionEngine) -> (r: Self)
        ensures
            r.wf(),
            r.pts_map() == Map::<(u64, u64), u64>::empty(),
            r.log_map() == Map::<(u64, u64), Seq<ServerCommit>>::empty(),
            r.ledger_map() == Map::<(u64, u64), LedgerRecord>::empty(),
            r.engine_spec() == engine,
            r.next_msg_id() == 1,
            forall|t: Seq<char>| #[trigger] r.entities_spec().type_state(t) == (0u64, 0u64, Seq::<SyncEntityItem>::empty()),
    {
        SyncCoordinator {
            sequencer: ChannelSequencer::new(),
            ledger: IdempotencyLedger::new(),
            log: CommitLog::new(),
            engine,
            entities: EntityVersionStore::new(),
            next_server_msg_id: 1,
        }
    }

    /// The rules submissions are held to.
    pub fn engine(&self) -> (r: &DecisionEngine)
        ensures
            *r == self.engine_spec(),
    {
        &self.engine
    }

    /// Handles a submission by `sender` (the authenticated user) at server
    /// time `server_timestamp`: a submission seen before gets its recorded
    /// decision back; otherwise the engine decides, and an accepted or
    /// transformed one gets the channel's next pts and is appended to the
    /// log. An error changes nothing.
    pub fn submit(&mut self, sender: u64, req: ClientSubmitRequest, server_timestamp: i64) -> (r:
        Result<ClientSubmitResponse, SyncError>)
        requires
            old(self).wf(),
        ensures
            final(self).wf(),
            Self::submitted(old(self), final(self), sender, req, server_timestamp, r),
    {
        let ghost key = channel_key(req.channel_id, req.channel_type);
        let cur = self.sequencer.current(req.channel_id, req.channel_type);
        let gap = req.last_pts < cur;
        match self.ledger.lookup(sender, req.local_message_id) {
            Some(rec) => {
                return Ok(
                    ClientSubmitResponse {
                        decision: rec.decision.duplicate(),
                        pts: rec.pts,
                        server_msg_id: rec.server_msg_id,
                        server_timestamp: rec.server_timestamp,
                        local_message_id: req.local_message_id,
                        has_gap: gap,
                        current_pts: cur,
                    },
                );
            },
            None => {},
        }
        let (dec, mtype) = self.engine.decide(sender, &req);
        if !dec.is_committed() {
            let rec = LedgerRecord {
                decision: dec.duplicate(),
                pts: None,
                server_msg_id: None,
                server_timestamp,
                channel_id: req.channel_id,
                channel_type: req.channel_type,
            };
            self.ledger.record(sender, req.local_message_id, rec);
            return Ok(
                ClientSubmitResponse {
                    decision: dec,
                    pts: None,
                    server_msg_id: None,
                    server_timestamp,
                    local_message_id: req.local_message_id,
                    has_gap: gap,
                    current_pts: cur,
                },
            );
        }
        if cur == u64::MAX {
            return Err(SyncError::SequenceExhausted);
        }
        if self.next_server_msg_id == u64::MAX {
            return Err(SyncError::MessageIdExhausted);
        }
        let ClientSubmitRequest {
            local_message_id,
            channel_id,
            channel_type,
            last_pts: _,
            command_type: _,
            payload,
            client_timestamp: _,
            device_id: _,
        } = req;
        let p = match self.sequencer.next(channel_id, channel_type) {
            Ok(p) => p,
            Err(e) => {
                return Err(e);
            },
        };
        let msg_id = self.next_server_msg_id;
        self.next_server_msg_id = msg_id + 1;
        let commit = ServerCommit {
            pts: p,
            server_msg_id: msg_id,
            local_message_id: Some(local_message_id),
            channel_id,
            channel_type,
            message_type: mtype,
            content: payload,
            server_timestamp,
            sender_id: sender,
            sender_info: None,
        };
        proof {
            let s = commits_in(old(self).log@, key);
            assert(s.len() == cur);
            if s.len() > 0 {
                assert(s[s.len() - 1].pts == s.len());
            }
        }
        let appended = self.log.append(commit);
        assert(appended is Ok);
        self.ledger.record(
            sender,
            local_message_id,
            LedgerRecord {
                decision: dec.duplicate(),
                pts: Some(p),
                server_msg_id: Some(msg_id),
                server_timestamp,
                channel_id,
                channel_type,
            },
        );
        proof {
            let s = commits_in(old(self).log@, key);
            assert forall|k: (u64, u64)| #[trigger]
                commits_in(self.log@, k).len() == pts_in(self.sequencer@, k) by {
                if k != key {
                    assert(commits_in(self.log@, k) == commits_in(old(self).log@, k));
                }
            }
            assert forall|k: (u64, u64), i: int|
                0 <= i < commits_in(self.log@, k).len() implies #[trigger] commits_in(
                self.log@,
                k,
            )[i].pts == i + 1 by {
                if k != key {
                    assert(commits_in(self.log@, k) == commits_in(old(self).log@, k));
                } else if i < s.len() {
                    assert(commits_in(self.log@, k)[i] == s[i]);
                }
            }
            assert forall|lk: (u64, u64)| #[trigger]
                self.ledger@.contains_key(lk) implies Self::names_commit(self.log@, self.ledger@[lk]) by {
                if lk != (sender, local_message_id) {
                    let rec = self.ledger@[lk];
                    assert(old(self).ledger@.contains_key(lk));
                    assert(Self::names_commit(old(self).log@, rec));
                    let k = channel_key(rec.channel_id, rec.channel_type);
                    if k != key {
                        assert(commits_in(self.log@, k) == commits_in(old(self).log@, k));
                    } else if rec.pts is Some {
                        assert(commits_in(self.log@, k)[rec.pts->0 - 1] == s[rec.pts->0 - 1]);
                    }
                }
            }
        }
        Ok(
            ClientSubmitResponse {
                decision: dec,
                pts: Some(p),
                server_msg_id: Some(msg_id),
                server_timestamp,
                local_message_id,
                has_gap: gap,
                current_pts: p,
            },
        )
    }

    /// The commits of a channel after `req.last_pts`, one page of them, with
    /// the channel's current pts and whether more follow.
    pub fn get_difference(&self, req: &GetDifferenceRequest) -> (r: GetDifferenceResponse)
        requires
            self.wf(),
        ensures
            ({
                let s = self.commits(req.channel_id, req.channel_type);
                &&& r.commits@ == page_of(s, pts_seq(s), req.last_pts, difference_limit(*req))
                &&& r.has_more == page_has_more(pts_seq(s), req.last_pts, difference_limit(*req))
                &&& r.current_pts == self.current_pts(req.channel_id, req.channel_type)
            }),
    {
        let limit: u32 = match req.limit {
            Some(l) => l,
            None => DEFAULT_DIFFERENCE_LIMIT,
        };
        let (commits, has_more) = self.log.range(
            req.channel_id,
            req.channel_type,
            req.last_pts,
            limit as usize,
        );
        GetDifferenceResponse {
            commits,
            current_pts: self.sequencer.current(req.channel_id, req.channel_type),
            has_more,
        }
    }

    /// A channel's current pts.
    pub fn get_channel_pts(&self, req: &GetChannelPtsRequest) -> (r: GetChannelPtsResponse)
        requires
            self.wf(),
        ensures
            r.current_pts == self.current_pts(req.channel_id, req.channel_type),
    {
        GetChannelPtsResponse {
            current_pts: self.sequencer.current(req.channel_id, req.channel_type),
        }
    }

    /// The current pts of each channel asked for, in the order asked.
    pub fn batch_get_channel_pts(&self, req: &BatchGetChannelPtsRequest) -> (r:
        BatchGetChannelPtsResponse)
        requires
            self.wf(),
        ensures
            r.channel_pts_map@.len() == req.channels@.len(),
            forall|i: int|
                0 <= i < req.channels@.len() ==> {
                    let ch = #[trigger] req.channels@[i];
                    let info = r.channel_pts_map@[i];
                    &&& info.channel_id == ch.channel_id
                    &&& info.channel_type == ch.channel_type
                    &&& info.current_pts == self.current_pts(ch.channel_id, ch.channel_type)
                },
    {
        let mut out: Vec<ChannelPtsInfo> = Vec::new();
        let mut i: usize = 0;
        while i < req.channels.len()
            invariant
                self.wf(),
                i <= req.channels@.len(),
                out@.len() == i,
                forall|j: int|
                    0 <= j < i ==> {
                        let ch = #[trigger] req.channels@[j];
                        let info = out@[j];
                        &&& info.channel_id == ch.channel_id
                        &&& info.channel_type == ch.channel_type
                        &&& info.current_pts == self.current_pts(ch.channel_id, ch.channel_type)
                    },
            decreases req.channels@.len() - i,
        {
            let ch = &req.channels[i];
            out.push(
                ChannelPtsInfo {
                    channel_id: ch.channel_id,
                    channel_type: ch.channel_type,
                    current_pts: self.sequencer.current(ch.channel_id, ch.channel_type),
                },
            );
            i += 1;
        }
        BatchGetChannelPtsResponse { channel_pts_map: out }
    }

    /// The message state (pts, commits, decisions) of the two coordinators
    /// is the same.
    pub open spec fn same_messages(&self, other: &SyncCoordinator) -> bool {
        &&& self.pts_map() == other.pts_map()
        &&& self.log_map() == other.log_map()
        &&& self.ledger_map() == other.ledger_map()
        &&& self.engine_spec() == other.engine_spec()
        &&& self.next_msg_id() == other.next_msg_id()
    }

    /// Records a new state of an entity under its type's next version.
    pub fn bump_entity(&mut self, entity_type: String, entity_id: String, payload: serde_json::Value) -> (r: Result<u64, SyncError>)
        requires
            old(self).wf(),
        ensures
            final(self).wf(),
            final(self).same_messages(old(self)),
            forall|t: Seq<char>| t != entity_type@ ==> #[trigger] final(self).entities_spec().type_state(t) == old(self).entities_spec().type_state(t),
            ({
                let (latest, horizon, items) = old(self).entities_spec().type_state(entity_type@);
                &&& r is Ok <==> latest < u64::MAX
                &&& match r {
                    Ok(v) => {
                        &&& v == latest + 1
                        &&& final(self).entities_spec().type_state(entity_type@) == (v, horizon, items.filter(other_entity(entity_id@)).push(
                            SyncEntityItem { entity_id, version: v, deleted: false, payload: Some(payload) },
                        ))
                    },
                    Err(e) => e == SyncError::VersionExhausted && final(self).entities_spec().type_state(entity_type@) == old(self).entities_spec().type_state(entity_type@),
                }
            }),
    {
        self.entities.bump(entity_type, entity_id, payload)
    }

    /// Records the deletion of an entity (a tombstone) under its type's next
    /// version.
    pub fn mark_entity_deleted(&mut self, entity_type: String, entity_id: String) -> (r: Result<u64, SyncError>)
        requires
            old(self).wf(),
        ensures
            final(self).wf(),
            final(self).same_messages(old(self)),
            forall|t: Seq<char>| t != entity_type@ ==> #[trigger] final(self).entities_spec().type_state(t) == old(self).entities_spec().type_state(t),
            ({
                let (latest, horizon, items) = old(self).entities_spec().type_state(entity_type@);
                &&& r is Ok <==> latest < u64::MAX
                &&& match r {
                    Ok(v) => {
                        &&& v == latest + 1
                        &&& final(self).entities_spec().type_state(entity_type@) == (v, horizon, items.filter(other_entity(entity_id@)).push(
                            SyncEntityItem { entity_id, version: v, deleted: true, payload: None },
                        ))
                    },
                    Err(e) => e == SyncError::VersionExhausted && final(self).entities_spec().type_state(entity_type@) == old(self).entities_spec().type_state(entity_type@),
                }
            }),
    {
        self.entities.mark_deleted(entity_type, entity_id)
    }

    /// Drops a type's tombstones up to version `upto`; clients synced to an
    /// older version are then sent back to 0.
    pub fn prune_entity_tombstones(&mut self, entity_type: String, upto: u64)
        requires
            old(self).wf(),
        ensures
            final(self).wf(),
            final(self).same_messages(old(self)),
            forall|t: Seq<char>| t != entity_type@ ==> #[trigger] final(self).entities_spec().type_state(t) == old(self).entities_spec().type_state(t),
            ({
                let (latest, horizon, items) = old(self).entities_spec().type_state(entity_type@);
                final(self).entities_spec().type_state(entity_type@) == (latest, if upto > horizon { upto } else { horizon }, items.filter(survives_prune(upto)))
            }),
    {
        self.entities.prune_tombstones(entity_type, upto)
    }

    /// The changes of an entity type after `req.since_version`, one page.
    pub fn sync_entities(&self, req: &SyncEntitiesRequest) -> (r: SyncEntitiesResponse)
        requires
            self.wf(),
        ensures
            ({
                let (latest, horizon, items) = self.entities_spec().type_state(req.entity_type@);
                sync_answer(latest, horizon, items, sync_since(*req), sync_limit(*req), r)
            }),
    {
        self.entities.sync(req)
    }
}

/// In every channel the log holds pts 1, 2, ... up to the channel's current
/// pts: strictly increasing, with no gap in what the server issued.
pub proof fn lemma_channel_pts_gapless(c: &SyncCoordinator, channel_id: u64, channel_type: u8)
    requires
        c.wf(),
    ensures
        c.commits(channel_id, channel_type).len() == c.current_pts(channel_id, channel_type),
        forall|i: int|
            0 <= i < c.commits(channel_id, channel_type).len() ==> #[trigger] c.commits(
                channel_id,
                channel_type,
            )[i].pts == i + 1,
        strictly_increasing(pts_seq(c.commits(channel_id, channel_type))),
{
    let key = channel_key(channel_id, channel_type);
    assert(commits_in(c.log@, key).len() == pts_in(c.sequencer@, key));
    let s = c.commits(channel_id, channel_type);
    assert forall|i: int| 0 <= i < s.len() implies #[trigger] s[i].pts == i + 1 by {
        assert(commits_in(c.log@, key)[i].pts == i + 1);
    }
    assert forall|i: int, j: int|
        0 <= i < j < pts_seq(s).len() implies pts_seq(s)[i] < pts_seq(s)[j] by {
        assert(s[i].pts == i + 1);
        assert(s[j].pts == j + 1);
    }
}

/// Submitting the same `(sender, local id)` again gives the same decision,
/// pts and server message id, and changes nothing.
pub proof fn lemma_resubmit_same_outcome(
    c0: &SyncCoordinator,
    c1: &SyncCoordinator,
    c2: &SyncCoordinator,
    sender: u64,
    req: ClientSubmitRequest,
    ts1: i64,
    ts2: i64,
    r1: Result<ClientSubmitResponse, SyncError>,
    r2: Result<ClientSubmitResponse, SyncError>,
)
    requires
        SyncCoordinator::submitted(c0, c1, sender, req, ts1, r1),
        SyncCoordinator::submitted(c1, c2, sender, req, ts2, r2),
        r1 is Ok,
    ensures
        r2 is Ok,
        r2->Ok_0.decision == r1->Ok_0.decision,
        r2->Ok_0.pts == r1->Ok_0.pts,
        r2->Ok_0.server_msg_id == r1->Ok_0.server_msg_id,
        r2->Ok_0.server_timestamp == r1->Ok_0.server_timestamp,
        c2.same_state(c1),
{
}

/// A decision recorded with a pts names an actual commit: the commit at
/// that pts in its channel carries the recorded server message id.
pub proof fn lemma_recorded_decision_names_commit(c: &SyncCoordinator, identity: u64, local_id: u64)
    requires
        c.wf(),
        c.ledger_map().contains_key((identity, local_id)),
    ensures
        SyncCoordinator::names_commit(c.log_map(), c.ledger_map()[(identity, local_id)]),
{
    assert(c.ledger@.contains_key((identity, local_id)));
}

/// A submission that comes back rejected leaves every channel's pts and
/// commits as they were.
pub proof fn lemma_rejection_keeps_pts(
    c0: &SyncCoordinator,
    c1: &SyncCoordinator,
    sender: u64,
    req: ClientSubmitRequest,
    ts: i64,
    r: Result<ClientSubmitResponse, SyncError>,
)
    requires
        c0.wf(),
        SyncCoordinator::submitted(c0, c1, sender, req, ts, r),
        r is Ok,
        r->Ok_0.decision is Rejected,
    ensures
        c1.pts_map() == c0.pts_map(),
        c1.log_map() == c0.log_map(),
        r->Ok_0.pts is None,
        r->Ok_0.current_pts == c0.current_pts(req.channel_id, req.channel_type),
{
}

/// Paging through a channel with `get_difference` from `after`, passing the
/// last pts received to the next call until `has_more` is false, gathers
/// exactly the commits above `after`, in order, as one unbounded range
/// would; with a positive page size it gets there within one call more
/// than there are commits.
pub proof fn lemma_difference_round_trip(
    c: &SyncCoordinator,
    channel_id: u64,
    channel_type: u8,
    after: u64,
    limit: nat,
    calls: nat,
)
    requires
        c.wf(),
    ensures
        ({
            let s = c.commits(channel_id, channel_type);
            &&& drain(s, pts_seq(s), after, limit, calls) is Some ==> drain(
                s,
                pts_seq(s),
                after,
                limit,
                calls,
            ) == Some(all_after(s, pts_seq(s), after))
            &&& limit > 0 ==> drain(s, pts_seq(s), after, limit, s.len() + 1) is Some
        }),
{
    let s = c.commits(channel_id, channel_type);
    lemma_channel_pts_gapless(c, channel_id, channel_type);
    if drain(s, pts_seq(s), after, limit, calls) is Some {
        lemma_drain_gathers_all(s, pts_seq(s), after, limit, calls);
    }
    if limit > 0 {
        lemma_split_index_bounds(pts_seq(s), after);
        lemma_drain_finishes(s, pts_seq(s), after, limit, s.len() + 1);
    }
}

} // verus!
