//! Decision engine: accepts, transforms or rejects a submission before it
//! is sequenced. It only reads the submission; the coordinator records the
//! outcome.
use vstd::prelude::*;
use crate::rpc::sync::{ClientSubmitRequest, ServerDecision};

verus! {

/// Commits submissions of type `from` under type `to`, giving `reason`.
#[derive(Debug, Clone)]
pub struct CommandRewrite {
    pub from: String,
    pub to: String,
    pub reason: String,
}

/// The rules a submission is held to.
#[derive(Debug, Clone)]
pub struct DecisionEngine {
    /// Users whose submissions are rejected.
    pub blocked_senders: Vec<u64>,
    /// Operation types that are rejected.
    pub rejected_command_types: Vec<String>,
    /// Operation types that are committed under another type; the first
    /// rule that matches applies.
    pub rewrites: Vec<CommandRewrite>,
    /// Reason given when the sender is blocked.
    pub blocked_reason: String,
    /// Reason given when the operation type is rejected.
    pub rejected_reason: String,
}

/// `i` is the first rewrite rule for `cmd`.
pub open spec fn is_first_rewrite(rw: Seq<CommandRewrite>, cmd: Seq<char>, i: int) -> bool {
    &&& 0 <= i < rw.len()
    &&& rw[i].from@ == cmd
    &&& forall|j: int| 0 <= j < i ==> rw[j].from@ != cmd
}

impl DecisionEngine {
    /// The decision for a submission of type `cmd` by `sender`, and the
    /// type it is committed under.
    pub open spec fn decide_spec(&self, sender: u64, cmd: String) -> (ServerDecision, String) {
        if self.blocked_senders@.contains(sender) {
            (ServerDecision::Rejected { reason: self.blocked_reason }, cmd)
        } else if exists|i: int|
            0 <= i < self.rejected_command_types@.len()
                && #[trigger] self.rejected_command_types@[i]@ == cmd@ {
            (ServerDecision::Rejected { reason: self.rejected_reason }, cmd)
        } else if exists|i: int| is_first_rewrite(self.rewrites@, cmd@, i) {
            let i = choose|i: int| is_first_rewrite(self.rewrites@, cmd@, i);
            (ServerDecision::Transformed { reason: self.rewrites@[i].reason }, self.rewrites@[i].to)
        } else {
            (ServerDecision::Accepted, cmd)
        }
    }

    /// Decides on a submission by `sender`; returns the decision and the
    /// operation type to commit under.
    pub fn decide(&self, sender: u64, req: &ClientSubmitRequest) -> (r: (ServerDecision, String))
        ensures
            r == self.decide_spec(sender, req.command_type),
    {
        let mut i: usize = 0;
        while i < self.blocked_senders.len()
            invariant
                i <= self.blocked_senders@.len(),
                forall|j: int| 0 <= j < i ==> self.blocked_senders@[j] != sender,
            decreases self.blocked_senders@.len() - i,
        {
            if self.blocked_senders[i] == sender {
                assert(self.blocked_senders@.contains(sender));
                return (
                    ServerDecision::Rejected { reason: self.blocked_reason.clone() },
                    req.command_type.clone(),
                );
            }
            i += 1;
        }
        let mut i: usize = 0;
        while i < self.rejected_command_types.len()
            invariant
                i <= self.rejected_command_types@.len(),
                !self.blocked_senders@.contains(sender),
                forall|j: int|
                    0 <= j < i ==> #[trigger] self.rejected_command_types@[j]@ != req.command_type@,
            decreases self.rejected_command_types@.len() - i,
        {
            if self.rejected_command_types[i] == req.command_type {
                return (
                    ServerDecision::Rejected { reason: self.rejected_reason.clone() },
                    req.command_type.clone(),
                );
            }
            i += 1;
        }
        let mut i: usize = 0;
        while i < self.rewrites.len()
            invariant
                i <= self.rewrites@.len(),
                !self.blocked_senders@.contains(sender),
                forall|j: int|
                    0 <= j < self.rejected_command_types@.len()
                        ==> #[trigger] self.rejected_command_types@[j]@ != req.command_type@,
                forall|j: int| 0 <= j < i ==> #[trigger] self.rewrites@[j].from@ != req.command_type@,
            decreases self.rewrites@.len() - i,
        {
            if self.rewrites[i].from == req.command_type {
                proof {
                    assert(is_first_rewrite(self.rewrites@, req.command_type@, i as int));
                    let k = choose|k: int| is_first_rewrite(self.rewrites@, req.command_type@, k);
                    if k < i {
                        assert(self.rewrites@[k].from@ != req.command_type@);
                    } else if k > i {
                        assert(self.rewrites@[i as int].from@ != req.command_type@);
                    }
                }
                return (
                    ServerDecision::Transformed { reason: self.rewrites[i].reason.clone() },
                    self.rewrites[i].to.clone(),
                );
            }
            i += 1;
        }
        (ServerDecision::Accepted, req.command_type.clone())
    }
}

} // verus!
