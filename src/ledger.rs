//! Idempotency ledger: the decision once given to each submission, keyed by
//! the submitter and the submission's local id.
use vstd::prelude::*;
use crate::rpc::sync::ServerDecision;
use crate::table::PairTable;

verus! {

/// What was decided for one submission.
#[derive(Debug, Clone)]
pub struct LedgerRecord {
    pub decision: ServerDecision,
    /// The pts assigned, for a committed submission.
    pub pts: Option<u64>,
    /// The server message id assigned, for a committed submission.
    pub server_msg_id: Option<u64>,
    /// Server time of the decision.
    pub server_timestamp: i64,
    pub channel_id: u64,
    pub channel_type: u8,
}

impl LedgerRecord {
    /// A copy of the record.
    pub fn duplicate(&self) -> (r: LedgerRecord)
        ensures
            r == *self,
    {
        LedgerRecord {
            decision: self.decision.duplicate(),
            pts: self.pts,
            server_msg_id: self.server_msg_id,
            server_timestamp: self.server_timestamp,
            channel_id: self.channel_id,
            channel_type: self.channel_type,
        }
    }
}

/// Decisions by `(submitter, local id)`. A key, once recorded, keeps its
/// first decision.
pub struct IdempotencyLedger {
    entries: PairTable<LedgerRecord>,
}

impl View for IdempotencyLedger {
    type V = Map<(u64, u64), LedgerRecord>;

    closed spec fn view(&self) -> Map<(u64, u64), LedgerRecord> {
        self.entries@
    }
}

impl IdempotencyLedger {
    pub closed spec fn wf(&self) -> bool {
        self.entries.wf()
    }

    /// A ledger with no decisions.
    pub fn new() -> (r: Self)
        ensures
            r.wf(),
            r@ == Map::<(u64, u64), LedgerRecord>::empty(),
    {
        IdempotencyLedger { entries: PairTable::new() }
    }

    /// The decision recorded for a submission, if any.
    pub fn lookup(&self, identity: u64, local_id: u64) -> (r: Option<&LedgerRecord>)
        requires
            self.wf(),
        ensures
            match r {
                Some(rec) => self@.contains_key((identity, local_id)) && *rec == self@[(
                    identity,
                    local_id,
                )],
                None => !self@.contains_key((identity, local_id)),
            },
    {
        self.entries.get((identity, local_id))
    }

    /// Records `rec` unless the key already has a decision; either way
    /// returns the decision that stands for the key.
    pub fn record(&mut self, identity: u64, local_id: u64, rec: LedgerRecord) -> (r: LedgerRecord)
        requires
            old(self).wf(),
        ensures
            final(self).wf(),
            old(self)@.contains_key((identity, local_id)) ==> final(self)@ == old(self)@ && r == old(
                self,
            )@[(identity, local_id)],
            !old(self)@.contains_key((identity, local_id)) ==> final(self)@ == old(self)@.insert(
                (identity, local_id),
                rec,
            ) && r == rec,
    {
        match self.entries.get((identity, local_id)) {
            Some(existing) => existing.duplicate(),
            None => {
                let out = rec.duplicate();
                self.entries.set((identity, local_id), rec);
                out
            },
        }
    }
}

} // verus!
