use vstd::prelude::*;

verus! {

/// Why a synchronisation call did not take effect. Nothing was changed
/// when one of these comes back, so the same call may be retried.
#[derive(Debug, Clone, Copy, PartialEq, Eq, Structural)]
pub enum SyncError {
    /// The channel's pts counter is at its largest value.
    SequenceExhausted,
    /// The server message id counter is at its largest value.
    MessageIdExhausted,
    /// The entity type's version counter is at its largest value.
    VersionExhausted,
    /// A commit's pts is not above the last pts of its channel.
    OutOfOrder,
}

} // verus!
