//! Entity version store: for each entity type a version counter shared by
//! all entities of the type, and the latest change of each entity,
//! tombstones included, so that clients can pull what changed since a
//! version.
use vstd::prelude::*;
use crate::paging::{
    all_after, drain, lemma_drain_finishes, lemma_drain_gathers_all, lemma_split_index_at,
    lemma_split_index_bounds, page_has_more, page_of, strictly_increasing,
};
use crate::rpc::sync::{SyncEntitiesRequest, SyncEntitiesResponse, SyncEntityItem};
use crate::sync_error::SyncError;
use crate::table::StrTable;

verus! {

/// Page size of an entity sync that names none.
pub const DEFAULT_SYNC_LIMIT: u32 = 100;

/// The version of each item, in order.
pub open spec fn version_seq(s: Seq<SyncEntityItem>) -> Seq<u64> {
    s.map_values(|it: SyncEntityItem| it.version)
}

/// Items of any entity but `id`.
pub open spec fn other_entity(id: Seq<char>) -> spec_fn(SyncEntityItem) -> bool {
    |it: SyncEntityItem| it.entity_id@ != id
}

/// Items that survive pruning the tombstones up to version `upto`.
pub open spec fn survives_prune(upto: u64) -> spec_fn(SyncEntityItem) -> bool {
    |it: SyncEntityItem| !(it.deleted && it.version <= upto)
}

/// No two items are about the same entity.
pub open spec fn distinct_entities(s: Seq<SyncEntityItem>) -> bool {
    forall|i: int, j: int| 0 <= i < j < s.len() ==> s[i].entity_id@ != s[j].entity_id@
}

/// Keeping some items of a sequence keeps their order and their distinct
/// entities, and keeps nothing that was not there.
proof fn lemma_filter_keeps_shape(s: Seq<SyncEntityItem>, pred: spec_fn(SyncEntityItem) -> bool)
    ensures
        forall|k: int|
            0 <= k < s.filter(pred).len() ==> exists|i: int|
                0 <= i < s.len() && #[trigger] s.filter(pred)[k] == s[i],
        strictly_increasing(version_seq(s)) ==> strictly_increasing(version_seq(s.filter(pred))),
        distinct_entities(s) ==> distinct_entities(s.filter(pred)),
    decreases s.len(),
{
    reveal(Seq::filter);
    let f = s.filter(pred);
    if s.len() > 0 {
        let d = s.drop_last();
        let g = d.filter(pred);
        lemma_filter_keeps_shape(d, pred);
        assert forall|k: int| 0 <= k < f.len() implies exists|i: int|
            0 <= i < s.len() && #[trigger] f[k] == s[i] by {
            if k < g.len() {
                let i = choose|i: int| 0 <= i < d.len() && g[k] == d[i];
                assert(f[k] == s[i]);
            } else {
                assert(f[k] == s[s.len() - 1]);
            }
        }
        if strictly_increasing(version_seq(s)) {
            assert(strictly_increasing(version_seq(d))) by {
                assert forall|i: int, j: int|
                    0 <= i < j < version_seq(d).len() implies version_seq(d)[i] < version_seq(
                    d,
                )[j] by {
                    assert(version_seq(d)[i] == version_seq(s)[i]);
                    assert(version_seq(d)[j] == version_seq(s)[j]);
                }
            }
            assert forall|i: int, j: int|
                0 <= i < j < version_seq(f).len() implies version_seq(f)[i] < version_seq(
                f,
            )[j] by {
                if j < g.len() {
                    assert(version_seq(f)[i] == version_seq(g)[i]);
                    assert(version_seq(f)[j] == version_seq(g)[j]);
                } else {
                    let a = choose|a: int| 0 <= a < d.len() && g[i] == d[a];
                    assert(version_seq(s)[a] < version_seq(s)[s.len() - 1]);
                }
            }
        }
        if distinct_entities(s) {
            assert forall|i: int, j: int| 0 <= i < j < f.len() implies f[i].entity_id@
                != f[j].entity_id@ by {
                let a = choose|a: int| 0 <= a < d.len() && g[i] == d[a];
                if j < g.len() {
                    let b = choose|b: int| 0 <= b < d.len() && g[j] == d[b];
                    assert(g[i] == f[i] && g[j] == f[j]);
                    if a != b {
                        if a < b {
                            assert(s[a].entity_id@ != s[b].entity_id@);
                        } else {
                            assert(s[b].entity_id@ != s[a].entity_id@);
                        }
                    }
                } else {
                    assert(s[a].entity_id@ != s[s.len() - 1].entity_id@);
                }
            }
        }
    }
}

/// The answer to a sync from version `since` in pages of `limit`, for a
/// type at version `latest` whose tombstones are pruned up to `horizon` and
/// whose entities' latest changes are `items`. A client synced to a version
/// below the horizon (but not 0) gets no items and the horizon, and must
/// start again from 0; any other gets the changes after `since` in
/// increasing version, and the version to ask from next.
pub open spec fn sync_answer(
    latest: u64,
    horizon: u64,
    items: Seq<SyncEntityItem>,
    since: u64,
    limit: nat,
    r: SyncEntitiesResponse,
) -> bool {
    if 0 < since < horizon {
        &&& r.items@.len() == 0
        &&& r.next_version == 0
        &&& !r.has_more
        &&& r.min_version == Some(horizon)
    } else {
        &&& r.items@ == page_of(items, version_seq(items), since, limit)
        &&& r.has_more == page_has_more(version_seq(items), since, limit)
        &&& r.next_version == if r.has_more && r.items@.len() > 0 {
            r.items@.last().version
        } else if r.has_more {
            since
        } else if since > latest {
            since
        } else {
            latest
        }
        &&& r.min_version is None
    }
}

/// What one entity type holds.
pub struct EntityTypeLog {
    latest_version: u64,
    min_version: u64,
    records: Vec<SyncEntityItem>,
}

impl EntityTypeLog {
    /// Last version handed out for the type; 0 before the first change.
    pub closed spec fn latest(&self) -> u64 {
        self.latest_version
    }

    /// Tombstones up to this version may have been pruned: a client synced
    /// to an older version must start again from 0.
    pub closed spec fn horizon(&self) -> u64 {
        self.min_version
    }

    /// The latest change of each entity, in increasing version.
    pub closed spec fn items(&self) -> Seq<SyncEntityItem> {
        self.records@
    }

    pub closed spec fn wf(&self) -> bool {
        &&& strictly_increasing(version_seq(self.records@))
        &&& distinct_entities(self.records@)
        &&& forall|i: int|
            0 <= i < self.records@.len() ==> 1 <= #[trigger] self.records@[i].version
                <= self.latest_version
    }

    /// A type with no changes yet.
    pub fn new() -> (r: Self)
        ensures
            r.wf(),
            r.latest() == 0,
            r.horizon() == 0,
            r.items() == Seq::<SyncEntityItem>::empty(),
    {
        EntityTypeLog { latest_version: 0, min_version: 0, records: Vec::new() }
    }

    /// Records `item` as the latest change of its entity, replacing the
    /// entity's earlier change.
    fn put(&mut self, item: SyncEntityItem)
        requires
            old(self).wf(),
            item.version == old(self).latest() + 1,
        ensures
            final(self).wf(),
            final(self).latest() == item.version,
            final(self).horizon() == old(self).horizon(),
            final(self).items() == old(self).items().filter(other_entity(item.entity_id@)).push(
                item,
            ),
    {
        let ghost s = self.records@;
        let ghost pred = other_entity(item.entity_id@);
        let mut kept: Vec<SyncEntityItem> = Vec::new();
        let mut i: usize = 0;
        while i < self.records.len()
            invariant
                s == self.records@,
                pred == other_entity(item.entity_id@),
                i <= s.len(),
                kept@ == s.subrange(0, i as int).filter(pred),
            decreases s.len() - i,
        {
            proof {
                reveal(Seq::filter);
                assert(s.subrange(0, i + 1).drop_last() =~= s.subrange(0, i as int));
            }
            if self.records[i].entity_id != item.entity_id {
                kept.push(self.records[i].duplicate());
            }
            i += 1;
        }
        assert(s.subrange(0, s.len() as int) =~= s);
        proof {
            lemma_filter_keeps_shape(s, pred);
        }
        let ghost f = kept@;
        assert(f == s.filter(pred));
        let v = item.version;
        kept.push(item);
        self.records = kept;
        self.latest_version = v;
        proof {
            let n = self.records@;
            assert forall|i: int, j: int|
                0 <= i < j < version_seq(n).len() implies version_seq(n)[i] < version_seq(n)[j] by {
                if j < f.len() {
                    assert(version_seq(n)[i] == version_seq(f)[i]);
                    assert(version_seq(n)[j] == version_seq(f)[j]);
                } else {
                    let a = choose|a: int| 0 <= a < s.len() && f[i] == s[a];
                    assert(1 <= s[a].version <= old(self).latest_version);
                }
            }
            assert forall|i: int, j: int| 0 <= i < j < n.len() implies n[i].entity_id@
                != n[j].entity_id@ by {
                if j < f.len() {
                    assert(n[i] == f[i] && n[j] == f[j]);
                } else {
                    s.lemma_filter_pred(pred, i);
                }
            }
            assert forall|i: int| 0 <= i < n.len() implies 1 <= #[trigger] n[i].version
                <= self.latest_version by {
                if i < f.len() {
                    let a = choose|a: int| 0 <= a < s.len() && f[i] == s[a];
                    assert(1 <= s[a].version <= old(self).latest_version);
                }
            }
        }
    }

    /// Records a new state of an entity under the type's next version.
    /// Fails, changing nothing, when the version counter cannot move up.
    pub fn bump(&mut self, entity_id: String, payload: serde_json::Value) -> (r: Result<
        u64,
        SyncError,
    >)
        requires
            old(self).wf(),
        ensures
            final(self).wf(),
            r is Ok <==> old(self).latest() < u64::MAX,
            match r {
                Ok(v) => {
                    &&& v == old(self).latest() + 1
                    &&& final(self).latest() == v
                    &&& final(self).horizon() == old(self).horizon()
                    &&& final(self).items() == old(self).items().filter(
                        other_entity(entity_id@),
                    ).push(
                        SyncEntityItem {
                            entity_id,
                            version: v,
                            deleted: false,
                            payload: Some(payload),
                        },
                    )
                },
                Err(e) => e == SyncError::VersionExhausted && *final(self) == *old(self),
            },
    {
        if self.latest_version == u64::MAX {
            return Err(SyncError::VersionExhausted);
        }
        let v = self.latest_version + 1;
        self.put(SyncEntityItem { entity_id, version: v, deleted: false, payload: Some(payload) });
        Ok(v)
    }

    /// Records the deletion of an entity (a tombstone) under the type's
    /// next version. Fails, changing nothing, when the version counter
    /// cannot move up.
    pub fn mark_deleted(&mut self, entity_id: String) -> (r: Result<u64, SyncError>)
        requires
            old(self).wf(),
        ensures
            final(self).wf(),
            r is Ok <==> old(self).latest() < u64::MAX,
            match r {
                Ok(v) => {
                    &&& v == old(self).latest() + 1
                    &&& final(self).latest() == v
                    &&& final(self).horizon() == old(self).horizon()
                    &&& final(self).items() == old(self).items().filter(
                        other_entity(entity_id@),
                    ).push(SyncEntityItem { entity_id, version: v, deleted: true, payload: None })
                },
                Err(e) => e == SyncError::VersionExhausted && *final(self) == *old(self),
            },
    {
        if self.latest_version == u64::MAX {
            return Err(SyncError::VersionExhausted);
        }
        let v = self.latest_version + 1;
        self.put(SyncEntityItem { entity_id, version: v, deleted: true, payload: None });
        Ok(v)
    }

    /// Drops the tombstones up to version `upto` and moves the horizon up to
    /// it, so that clients synced to an older version start again from 0.
    pub fn prune_tombstones(&mut self, upto: u64)
        requires
            old(self).wf(),
        ensures
            final(self).wf(),
            final(self).latest() == old(self).latest(),
            final(self).horizon() == if upto > old(self).horizon() {
                upto
            } else {
                old(self).horizon()
            },
            final(self).items() == old(self).items().filter(survives_prune(upto)),
    {
        let ghost s = self.records@;
        let ghost pred = survives_prune(upto);
        let mut kept: Vec<SyncEntityItem> = Vec::new();
        let mut i: usize = 0;
        while i < self.records.len()
            invariant
                s == self.records@,
                pred == survives_prune(upto),
                i <= s.len(),
                kept@ == s.subrange(0, i as int).filter(pred),
            decreases s.len() - i,
        {
            proof {
                reveal(Seq::filter);
                assert(s.subrange(0, i + 1).drop_last() =~= s.subrange(0, i as int));
            }
            if !(self.records[i].deleted && self.records[i].version <= upto) {
                kept.push(self.records[i].duplicate());
            }
            i += 1;
        }
        assert(s.subrange(0, s.len() as int) =~= s);
        proof {
            lemma_filter_keeps_shape(s, pred);
            let f = kept@;
            assert forall|i: int| 0 <= i < f.len() implies 1 <= #[trigger] f[i].version
                <= self.latest_version by {
                let a = choose|a: int| 0 <= a < s.len() && f[i] == s[a];
                assert(1 <= s[a].version <= self.latest_version);
            }
        }
        self.records = kept;
        if upto > self.min_version {
            self.min_version = upto;
        }
    }

    /// The changes after version `since`, at most `limit` of them, in
    /// increasing version; or, for a stale client, none and the horizon.
    pub fn sync(&self, since: u64, limit: usize) -> (r: SyncEntitiesResponse)
        requires
            self.wf(),
        ensures
            sync_answer(self.latest(), self.horizon(), self.items(), since, limit as nat, r),
    {
        if 0 < since && since < self.min_version {
            return SyncEntitiesResponse {
                items: Vec::new(),
                next_version: 0,
                has_more: false,
                min_version: Some(self.min_version),
            };
        }
        let ghost s = self.records@;
        let mut i: usize = 0;
        while i < self.records.len() && self.records[i].version <= since
            invariant
                s == self.records@,
                strictly_increasing(version_seq(s)),
                i <= s.len(),
                forall|j: int| 0 <= j < i ==> version_seq(s)[j] <= since,
            decreases s.len() - i,
        {
            i += 1;
        }
        proof {
            lemma_split_index_at(version_seq(s), since, i as int);
        }
        let start = i;
        let end: usize = if self.records.len() - start > limit {
            start + limit
        } else {
            self.records.len()
        };
        let mut items: Vec<SyncEntityItem> = Vec::new();
        while i < end
            invariant
                s == self.records@,
                start <= i <= end <= s.len(),
                items@ == s.subrange(start as int, i as int),
            decreases end - i,
        {
            items.push(self.records[i].duplicate());
            assert(items@ =~= s.subrange(start as int, i + 1));
            i += 1;
        }
        let has_more = end < self.records.len();
        let next_version = if has_more && end > start {
            self.records[end - 1].version
        } else if has_more {
            since
        } else if since > self.latest_version {
            since
        } else {
            self.latest_version
        };
        SyncEntitiesResponse { items, next_version, has_more, min_version: None }
    }
}

/// The state of an entity type as `(latest version, horizon, items)`; a
/// type never changed is at `(0, 0, [])`.
pub open spec fn type_state_in(m: Map<Seq<char>, EntityTypeLog>, t: Seq<char>) -> (
    u64,
    u64,
    Seq<SyncEntityItem>,
) {
    if m.contains_key(t) {
        (m[t].latest(), m[t].horizon(), m[t].items())
    } else {
        (0, 0, Seq::empty())
    }
}

/// Entity changes of every type, keyed by the type's name (friend, group,
/// channel, group_member, user, user_settings, user_block, ...).
pub struct EntityVersionStore {
    logs: StrTable<EntityTypeLog>,
}

impl EntityVersionStore {
    /// The log of each type changed so far.
    pub closed spec fn logs_map(&self) -> Map<Seq<char>, EntityTypeLog> {
        self.logs@
    }

    /// `(latest version, horizon, items)` of a type.
    pub open spec fn type_state(&self, t: Seq<char>) -> (u64, u64, Seq<SyncEntityItem>) {
        type_state_in(self.logs_map(), t)
    }

    pub closed spec fn wf(&self) -> bool {
        &&& self.logs.wf()
        &&& forall|t: Seq<char>| #[trigger] self.logs@.contains_key(t) ==> self.logs@[t].wf()
    }

    /// A store with no changes.
    pub fn new() -> (r: Self)
        ensures
            r.wf(),
            forall|t: Seq<char>| #[trigger] r.type_state(t) == (0u64, 0u64, Seq::<SyncEntityItem>::empty()),
    {
        EntityVersionStore { logs: StrTable::new() }
    }

    /// Takes the log of a type out of the table, leaving an empty one.
    fn take_log(&mut self, entity_type: &String) -> (r: EntityTypeLog)
        requires
            old(self).wf(),
        ensures
            final(self).wf(),
            r.wf(),
            (r.latest(), r.horizon(), r.items()) == old(self).type_state(entity_type@),
            forall|t: Seq<char>| t != entity_type@ ==> #[trigger] final(self).type_state(t) == old(self).type_state(t),
    {
        match self.logs.set(entity_type.clone(), EntityTypeLog::new()) {
            Some(l) => l,
            None => EntityTypeLog::new(),
        }
    }

    /// Puts the log of a type back.
    fn put_log(&mut self, entity_type: String, log: EntityTypeLog)
        requires
            old(self).wf(),
            log.wf(),
        ensures
            final(self).wf(),
            final(self).type_state(entity_type@) == (log.latest(), log.horizon(), log.items()),
            forall|t: Seq<char>| t != entity_type@ ==> #[trigger] final(self).type_state(t) == old(self).type_state(t),
    {
        self.logs.set(entity_type, log);
    }

    /// Records a new state of an entity under its type's next version.
    /// Fails, changing nothing, when the type's version counter cannot move
    /// up.
    pub fn bump(&mut self, entity_type: String, entity_id: String, payload: serde_json::Value) -> (r: Result<u64, SyncError>)
        requires
            old(self).wf(),
        ensures
            final(self).wf(),
            forall|t: Seq<char>| t != entity_type@ ==> #[trigger] final(self).type_state(t) == old(self).type_state(t),
            ({
                let (latest, horizon, items) = old(self).type_state(entity_type@);
                &&& r is Ok <==> latest < u64::MAX
                &&& match r {
                    Ok(v) => {
                        &&& v == latest + 1
                        &&& final(self).type_state(entity_type@) == (v, horizon, items.filter(other_entity(entity_id@)).push(
                            SyncEntityItem { entity_id, version: v, deleted: false, payload: Some(payload) },
                        ))
                    },
                    Err(e) => e == SyncError::VersionExhausted && final(self).type_state(entity_type@) == old(self).type_state(entity_type@),
                }
            }),
    {
        let mut log = self.take_log(&entity_type);
        let r = log.bump(entity_id, payload);
        self.put_log(entity_type, log);
        r
    }

    /// Records the deletion of an entity (a tombstone) under its type's
    /// next version. Fails, changing nothing, when the type's version
    /// counter cannot move up.
    pub fn mark_deleted(&mut self, entity_type: String, entity_id: String) -> (r: Result<u64, SyncError>)
        requires
            old(self).wf(),
        ensures
            final(self).wf(),
            forall|t: Seq<char>| t != entity_type@ ==> #[trigger] final(self).type_state(t) == old(self).type_state(t),
            ({
                let (latest, horizon, items) = old(self).type_state(entity_type@);
                &&& r is Ok <==> latest < u64::MAX
                &&& match r {
                    Ok(v) => {
                        &&& v == latest + 1
                        &&& final(self).type_state(entity_type@) == (v, horizon, items.filter(other_entity(entity_id@)).push(
                            SyncEntityItem { entity_id, version: v, deleted: true, payload: None },
                        ))
                    },
                    Err(e) => e == SyncError::VersionExhausted && final(self).type_state(entity_type@) == old(self).type_state(entity_type@),
                }
            }),
    {
        let mut log = self.take_log(&entity_type);
        let r = log.mark_deleted(entity_id);
        self.put_log(entity_type, log);
        r
    }

    /// Drops a type's tombstones up to version `upto` and moves its horizon
    /// up to it.
    pub fn prune_tombstones(&mut self, entity_type: String, upto: u64)
        requires
            old(self).wf(),
        ensures
            final(self).wf(),
            forall|t: Seq<char>| t != entity_type@ ==> #[trigger] final(self).type_state(t) == old(self).type_state(t),
            ({
                let (latest, horizon, items) = old(self).type_state(entity_type@);
                final(self).type_state(entity_type@) == (latest, if upto > horizon { upto } else { horizon }, items.filter(survives_prune(upto)))
            }),
    {
        let mut log = self.take_log(&entity_type);
        log.prune_tombstones(upto);
        self.put_log(entity_type, log);
    }

    /// The changes of a type after `req.since_version` (0 when absent), one
    /// page of `req.limit` (100 when absent). `req.scope` does not narrow
    /// the answer.
    pub fn sync(&self, req: &SyncEntitiesRequest) -> (r: SyncEntitiesResponse)
        requires
            self.wf(),
        ensures
            ({
                let (latest, horizon, items) = self.type_state(req.entity_type@);
                sync_answer(latest, horizon, items, sync_since(*req), sync_limit(*req), r)
            }),
    {
        let since: u64 = match req.since_version {
            Some(v) => v,
            None => 0,
        };
        let limit: u32 = match req.limit {
            Some(l) => l,
            None => DEFAULT_SYNC_LIMIT,
        };
        match self.logs.get(&req.entity_type) {
            Some(log) => log.sync(since, limit as usize),
            None => {
                let empty = EntityTypeLog::new();
                empty.sync(since, limit as usize)
            },
        }
    }
}

/// The version a sync request starts after.
pub open spec fn sync_since(req: SyncEntitiesRequest) -> u64 {
    match req.since_version {
        Some(v) => v,
        None => 0,
    }
}

/// The page size a sync request asks for.
pub open spec fn sync_limit(req: SyncEntitiesRequest) -> nat {
    match req.limit {
        Some(l) => l as nat,
        None => DEFAULT_SYNC_LIMIT as nat,
    }
}

/// Pulling a type's changes from version 0 in pages, passing each
/// `next_version` on until `has_more` is false, gathers the latest change
/// of every entity, tombstones included, in increasing version: what one
/// sync from 0 with no page limit gives. With a positive page size it gets
/// there within one call more than there are entities. This holds while
/// no tombstone of the type has been pruned.
pub proof fn lemma_entity_sync_converges(store: &EntityVersionStore, t: Seq<char>, limit: nat, calls: nat)
    requires
        store.wf(),
        store.type_state(t).1 == 0,
    ensures
        ({
            let items = store.type_state(t).2;
            &&& all_after(items, version_seq(items), 0) == items
            &&& drain(items, version_seq(items), 0, limit, calls) is Some ==> drain(items, version_seq(items), 0, limit, calls) == Some(items)
            &&& limit > 0 ==> drain(items, version_seq(items), 0, limit, items.len() + 1) is Some
        }),
{
    let items = store.type_state(t).2;
    let ks = version_seq(items);
    if store.logs@.contains_key(t) {
        assert(store.logs@[t].wf());
        let n = store.logs@[t];
        assert(ks.len() == 0 || ks[0] > 0) by {
            if ks.len() > 0 {
                assert(1 <= n.records@[0].version);
            }
        }
    } else {
        assert(ks.len() == 0);
    }
    assert(strictly_increasing(ks));
    lemma_split_index_at(ks, 0, 0);
    assert(all_after(items, ks, 0) =~= items);
    if drain(items, ks, 0, limit, calls) is Some {
        lemma_drain_gathers_all(items, ks, 0, limit, calls);
    }
    if limit > 0 {
        lemma_split_index_bounds(ks, 0);
        lemma_drain_finishes(items, ks, 0, limit, items.len() + 1);
    }
}

} // verus!
