//! Commit log: each channel's commits, in increasing pts.
use vstd::prelude::*;
use crate::paging::{lemma_split_index_at, page_has_more, page_of, strictly_increasing};
use crate::rpc::sync::ServerCommit;
use crate::sequencer::channel_key;
use crate::sync_error::SyncError;
use crate::table::PairTable;

verus! {

/// The pts of each commit, in order.
pub open spec fn pts_seq(s: Seq<ServerCommit>) -> Seq<u64> {
    s.map_values(|c: ServerCommit| c.pts)
}

/// A channel's commits in a log map; a channel never seen has none.
pub open spec fn commits_in(m: Map<(u64, u64), Seq<ServerCommit>>, key: (u64, u64)) -> Seq<
    ServerCommit,
> {
    if m.contains_key(key) {
        m[key]
    } else {
        Seq::empty()
    }
}

/// Append-only store of commits by channel.
pub struct CommitLog {
    channels: PairTable<Vec<ServerCommit>>,
}

impl View for CommitLog {
    type V = Map<(u64, u64), Seq<ServerCommit>>;

    closed spec fn view(&self) -> Map<(u64, u64), Seq<ServerCommit>> {
        self.channels@.map_values(|v: Vec<ServerCommit>| v@)
    }
}

impl CommitLog {
    /// Within each channel the pts strictly increase, and each commit names
    /// its channel.
    pub closed spec fn wf(&self) -> bool {
        &&& self.channels.wf()
        &&& forall|key: (u64, u64)| #[trigger]
            self.channels@.contains_key(key) ==> strictly_increasing(
                pts_seq(self.channels@[key]@),
            )
        &&& forall|key: (u64, u64), i: int| #[trigger]
            self.channels@.contains_key(key) && 0 <= i < self.channels@[key]@.len()
                ==> channel_key(
                #[trigger] self.channels@[key]@[i].channel_id,
                self.channels@[key]@[i].channel_type,
            ) == key
    }

    /// The commits of a channel.
    pub open spec fn commits(&self, channel_id: u64, channel_type: u8) -> Seq<ServerCommit> {
        commits_in(self@, channel_key(channel_id, channel_type))
    }

    /// An empty log.
    pub fn new() -> (r: Self)
        ensures
            r.wf(),
            r@ == Map::<(u64, u64), Seq<ServerCommit>>::empty(),
    {
        let r = CommitLog { channels: PairTable::new() };
        assert(r@ =~= Map::<(u64, u64), Seq<ServerCommit>>::empty());
        r
    }

    /// Appends a commit to its channel. Refused, changing nothing, when its
    /// pts is not above the channel's last pts.
    pub fn append(&mut self, c: ServerCommit) -> (r: Result<(), SyncError>)
        requires
            old(self).wf(),
        ensures
            final(self).wf(),
            ({
                let s = old(self).commits(c.channel_id, c.channel_type);
                &&& r is Ok <==> (s.len() == 0 || s.last().pts < c.pts)
                &&& r is Ok ==> final(self)@ == old(self)@.insert(
                    channel_key(c.channel_id, c.channel_type),
                    s.push(c),
                )
                &&& r is Err ==> r == Err::<(), SyncError>(SyncError::OutOfOrder) && final(self)@
                    == old(self)@
            }),
    {
        let key = (c.channel_id, c.channel_type as u64);
        let ghost s = old(self).commits(c.channel_id, c.channel_type);
        let ok = match self.channels.get(key) {
            Some(v) => {
                assert(v@ == s);
                v.len() == 0 || v[v.len() - 1].pts < c.pts
            },
            None => true,
        };
        if !ok {
            return Err(SyncError::OutOfOrder);
        }
        let ghost cc = c;
        let mut cur = match self.channels.set(key, Vec::new()) {
            Some(v) => v,
            None => Vec::new(),
        };
        assert(cur@ == s);
        cur.push(c);
        self.channels.set(key, cur);
        proof {
            let ns = s.push(cc);
            assert forall|i: int, j: int|
                0 <= i < j < pts_seq(ns).len() implies pts_seq(ns)[i] < pts_seq(ns)[j] by {
                if j == ns.len() - 1 && i < j {
                    if s.len() > 0 {
                        assert(old(self).channels@.contains_key(key));
                        assert(strictly_increasing(pts_seq(old(self).channels@[key]@)));
                        assert(pts_seq(s)[i] <= pts_seq(s)[s.len() - 1]);
                    }
                } else {
                    assert(old(self).channels@.contains_key(key));
                    assert(strictly_increasing(pts_seq(old(self).channels@[key]@)));
                    assert(pts_seq(ns)[i] == pts_seq(s)[i]);
                    assert(pts_seq(ns)[j] == pts_seq(s)[j]);
                }
            }
            assert forall|k: (u64, u64)| #[trigger]
                self.channels@.contains_key(k) implies strictly_increasing(
                pts_seq(self.channels@[k]@),
            ) by {
                if k != key {
                    assert(old(self).channels@.contains_key(k));
                }
            }
            assert forall|k: (u64, u64), i: int| #[trigger]
                self.channels@.contains_key(k) && 0 <= i < self.channels@[k]@.len()
                    implies channel_key(
                #[trigger] self.channels@[k]@[i].channel_id,
                self.channels@[k]@[i].channel_type,
            ) == k by {
                if k != key {
                    assert(old(self).channels@.contains_key(k));
                } else if i < s.len() {
                    assert(old(self).channels@.contains_key(k));
                    assert(self.channels@[k]@[i] == old(self).channels@[k]@[i]);
                }
            }
            assert(self@ =~= old(self)@.insert(key, ns));
        }
        Ok(())
    }

    /// The pts of the channel's last commit, 0 when it has none.
    pub fn last_pts(&self, channel_id: u64, channel_type: u8) -> (r: u64)
        requires
            self.wf(),
        ensures
            ({
                let s = self.commits(channel_id, channel_type);
                r == if s.len() == 0 {
                    0
                } else {
                    s.last().pts
                }
            }),
    {
        match self.channels.get((channel_id, channel_type as u64)) {
            Some(v) => {
                if v.len() == 0 {
                    0
                } else {
                    v[v.len() - 1].pts
                }
            },
            None => 0,
        }
    }

    /// The channel's commits with pts above `after_pts`, at most `limit` of
    /// them, in increasing pts; and whether more follow.
    pub fn range(&self, channel_id: u64, channel_type: u8, after_pts: u64, limit: usize) -> (r: (
        Vec<ServerCommit>,
        bool,
    ))
        requires
            self.wf(),
        ensures
            ({
                let s = self.commits(channel_id, channel_type);
                &&& r.0@ == page_of(s, pts_seq(s), after_pts, limit as nat)
                &&& r.1 == page_has_more(pts_seq(s), after_pts, limit as nat)
            }),
    {
        let ghost s = self.commits(channel_id, channel_type);
        let mut out: Vec<ServerCommit> = Vec::new();
        match self.channels.get((channel_id, channel_type as u64)) {
            Some(v) => {
                assert(v@ == s);
                proof {
                    assert(self.channels@.contains_key(channel_key(channel_id, channel_type)));
                }
                let mut i: usize = 0;
                while i < v.len() && v[i].pts <= after_pts
                    invariant
                        v@ == s,
                        strictly_increasing(pts_seq(s)),
                        i <= v@.len(),
                        forall|j: int| 0 <= j < i ==> pts_seq(s)[j] <= after_pts,
                    decreases v@.len() - i,
                {
                    i += 1;
                }
                proof {
                    lemma_split_index_at(pts_seq(s), after_pts, i as int);
                }
                let start = i;
                let end: usize = if v.len() - start > limit {
                    start + limit
                } else {
                    v.len()
                };
                while i < end
                    invariant
                        v@ == s,
                        start <= i <= end <= v@.len(),
                        out@ == s.subrange(start as int, i as int),
                    decreases end - i,
                {
                    out.push(v[i].duplicate());
                    assert(out@ =~= s.subrange(start as int, i + 1));
                    i += 1;
                }
                (out, end < v.len())
            },
            None => {
                assert(s =~= Seq::<ServerCommit>::empty());
                assert(out@ =~= page_of(s, pts_seq(s), after_pts, limit as nat));
                (out, false)
            },
        }
    }
}

} // verus!
