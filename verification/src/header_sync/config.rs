//! Local header-sync configuration.

use crate::header_sync::scheduler::HeaderRequestLimits;
use crate::time::Duration;
use crate::types::{BlockHash, Height};
use vstd::prelude::*;

verus! {

/// The most outbound requests that are kept in flight to one peer.
pub const EFFECTIVE_HS_OUTBOUND_INFLIGHT_PER_PEER: usize = 1;

/// This node's header-sync caps, intervals and overrides.
#[derive(Copy, Clone, Debug)]
pub struct ZakuraHeaderSyncConfig {
    /// Trusted anchor height, genesis when there is no override.
    pub anchor_height: Option<Height>,
    /// Largest `max_headers_per_response` that an advertisement is taken for.
    pub max_advertised_range: u32,
    /// Largest number of requests in flight that an advertisement is taken for.
    pub max_inflight_per_peer: u16,
    /// Caps on the count of one outbound request.
    pub request_limits: HeaderRequestLimits,
    /// Largest inbound request count this node serves.
    pub inbound_get_headers_count_limit: u32,
    /// How many block hashes are remembered as seen.
    pub seen_hash_capacity: usize,
    /// Timeout of one request.
    pub request_timeout: Duration,
    /// Interval between status refreshes to a peer.
    pub status_refresh_interval: Duration,
    /// How long a peer rests after it answered without headers.
    pub empty_headers_retry_delay: Duration,
}

impl ZakuraHeaderSyncConfig {
    /// Every cap admits at least one header or request.
    pub open spec fn wf(self) -> bool {
        &&& self.max_advertised_range >= 1
        &&& self.max_inflight_per_peer >= 1
        &&& self.request_limits.wf()
    }

    /// The trusted anchor height, genesis when there is no override.
    pub fn effective_anchor_height(&self) -> (height: Height)
        ensures
            height == (match self.anchor_height {
                Some(height) => height,
                None => Height(0),
            }),
    {
        match self.anchor_height {
            Some(height) => height,
            None => Height(0),
        }
    }
}

/// `value` clamped into `1..=max`.
pub open spec fn clamp_from_one(value: int, max: int) -> int {
    if value < 1 {
        1
    } else if value > max {
        max
    } else {
        value
    }
}

/// An advertised per-response cap, clamped into `1..=max`.
pub fn clamp_advertised_range(range: u32, max: u32) -> (clamped: u32)
    requires
        max >= 1,
    ensures
        clamped == clamp_from_one(range as int, max as int),
{
    if range < 1 {
        1
    } else if range > max {
        max
    } else {
        range
    }
}

/// An advertised number of requests in flight, clamped into `1..=max`.
pub fn clamp_inflight(inflight: u16, max: u16) -> (clamped: u16)
    requires
        max >= 1,
    ensures
        clamped == clamp_from_one(inflight as int, max as int),
{
    if inflight < 1 {
        1
    } else if inflight > max {
        max
    } else {
        inflight
    }
}

/// What header sync reads of the active network.
#[derive(Debug)]
pub struct NetworkParams {
    /// Hash of the genesis block.
    pub genesis_hash: BlockHash,
    /// Heights of the checkpoints.
    pub checkpoints: Vec<Height>,
    /// Height of the last checkpoint.
    pub last_checkpoint_height: Height,
}

/// Whether `checkpoint` is the lowest checkpoint at or above `from`.
pub open spec fn is_lowest_from(checkpoints: Seq<Height>, from: Height, checkpoint: Height) -> bool {
    &&& checkpoints.contains(checkpoint)
    &&& checkpoint.0 >= from.0
    &&& forall|i: int|
        0 <= i < checkpoints.len() && (#[trigger] checkpoints[i]).0 >= from.0 ==> checkpoint.0
            <= checkpoints[i].0
}

/// The lowest checkpoint at or above `from`.
pub open spec fn lowest_from(checkpoints: Seq<Height>, from: Height) -> Option<Height> {
    if exists|checkpoint: Height| is_lowest_from(checkpoints, from, checkpoint) {
        Some(choose|checkpoint: Height| is_lowest_from(checkpoints, from, checkpoint))
    } else {
        None
    }
}

impl NetworkParams {
    /// The lowest checkpoint at or above `from`.
    pub fn min_checkpoint_from(&self, from: Height) -> (lowest: Option<Height>)
        ensures
            lowest == lowest_from(self.checkpoints@, from),
            lowest matches Some(checkpoint) ==> is_lowest_from(self.checkpoints@, from, checkpoint),
            lowest is None ==> forall|i: int|
                0 <= i < self.checkpoints@.len() ==> (#[trigger] self.checkpoints@[i]).0 < from.0,
    {
        let ghost all = self.checkpoints@;
        let mut lowest: Option<Height> = None;
        let mut i: usize = 0;
        while i < self.checkpoints.len()
            invariant
                i <= all.len(),
                all == self.checkpoints@,
                lowest matches Some(checkpoint) ==> {
                    &&& all.contains(checkpoint)
                    &&& checkpoint.0 >= from.0
                    &&& forall|j: int|
                        0 <= j < i && (#[trigger] all[j]).0 >= from.0 ==> checkpoint.0 <= all[j].0
                },
                lowest is None ==> forall|j: int| 0 <= j < i ==> (#[trigger] all[j]).0 < from.0,
            decreases all.len() - i,
        {
            let checkpoint = self.checkpoints[i];
            assert(all[i as int] == checkpoint);
            if checkpoint.0 >= from.0 {
                match lowest {
                    Some(found) => {
                        if checkpoint.0 < found.0 {
                            lowest = Some(checkpoint);
                        }
                    },
                    None => {
                        lowest = Some(checkpoint);
                    },
                }
            }
            i = i + 1;
        }
        proof {
            match lowest {
                Some(checkpoint) => {
                    assert(is_lowest_from(all, from, checkpoint));
                    let other = choose|c: Height| is_lowest_from(all, from, c);
                    assert(is_lowest_from(all, from, other));
                    let a = choose|a: int| 0 <= a < all.len() && all[a] == checkpoint;
                    let b = choose|b: int| 0 <= b < all.len() && all[b] == other;
                    assert(all[a].0 <= all[b].0 && all[b].0 <= all[a].0);
                },
                None => {
                    if exists|c: Height| is_lowest_from(all, from, c) {
                        let c = choose|c: Height| is_lowest_from(all, from, c);
                        let a = choose|a: int| 0 <= a < all.len() && all[a] == c;
                        assert(all[a].0 < from.0);
                    }
                },
            }
        }
        lowest
    }
}

} // verus!
