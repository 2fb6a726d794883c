//! Channel sequencer: one pts counter per channel.
use vstd::prelude::*;
use crate::sync_error::SyncError;
use crate::table::PairTable;

verus! {

/// Key of a channel: its id and its type.
pub open spec fn channel_key(channel_id: u64, channel_type: u8) -> (u64, u64) {
    (channel_id, channel_type as u64)
}

/// The pts of a channel in a counter map; a channel never seen is at 0.
pub open spec fn pts_in(m: Map<(u64, u64), u64>, key: (u64, u64)) -> u64 {
    if m.contains_key(key) {
        m[key]
    } else {
        0
    }
}

/// Assigns each channel's next pts. A channel's counter starts at 0 and
/// only moves up by one.
pub struct ChannelSequencer {
    counters: PairTable<u64>,
}

impl View for ChannelSequencer {
    type V = Map<(u64, u64), u64>;

    closed spec fn view(&self) -> Map<(u64, u64), u64> {
        self.counters@
    }
}

impl ChannelSequencer {
    pub closed spec fn wf(&self) -> bool {
        self.counters.wf()
    }

    /// The current pts of a channel.
    pub open spec fn pts(&self, channel_id: u64, channel_type: u8) -> u64 {
        pts_in(self@, channel_key(channel_id, channel_type))
    }

    /// Every channel at pts 0.
    pub fn new() -> (r: Self)
        ensures
            r.wf(),
            r@ == Map::<(u64, u64), u64>::empty(),
    {
        ChannelSequencer { counters: PairTable::new() }
    }

    /// The current pts of a channel, without changing it.
    pub fn current(&self, channel_id: u64, channel_type: u8) -> (r: u64)
        requires
            self.wf(),
        ensures
            r == self.pts(channel_id, channel_type),
    {
        match self.counters.get((channel_id, channel_type as u64)) {
            Some(p) => *p,
            None => 0,
        }
    }

    /// Takes the channel's next pts. Fails, changing nothing, when the
    /// counter cannot move up.
    pub fn next(&mut self, channel_id: u64, channel_type: u8) -> (r: Result<u64, SyncError>)
        requires
            old(self).wf(),
        ensures
            final(self).wf(),
            r is Ok <==> old(self).pts(channel_id, channel_type) < u64::MAX,
            match r {
                Ok(p) => p == old(self).pts(channel_id, channel_type) + 1 && final(self)@ == old(
                    self,
                )@.insert(channel_key(channel_id, channel_type), p),
                Err(e) => e == SyncError::SequenceExhausted && final(self)@ == old(self)@,
            },
    {
        let cur = self.current(channel_id, channel_type);
        if cur == u64::MAX {
            return Err(SyncError::SequenceExhausted);
        }
        let p = cur + 1;
        self.counters.set((channel_id, channel_type as u64), p);
        Ok(p)
    }
}

} // verus!
