//! Header ranges and the height arithmetic behind them.

use crate::types::{same_bytes_32, BlockHash, Height};
use crate::vec_map::MapKey;
use vstd::prelude::*;

verus! {

/// The height after `height`, if there is one.
pub fn next_height(height: Height) -> (next: Option<Height>)
    ensures
        next == (if height.0 < u32::MAX {
            Some(Height((height.0 + 1) as u32))
        } else {
            None
        }),
{
    if height.0 < u32::MAX {
        Some(Height(height.0 + 1))
    } else {
        None
    }
}

/// The height before `height`, if there is one.
pub fn previous_height(height: Height) -> (previous: Option<Height>)
    ensures
        previous == (if height.0 > 0 {
            Some(Height((height.0 - 1) as u32))
        } else {
            None
        }),
{
    if height.0 > 0 {
        Some(Height(height.0 - 1))
    } else {
        None
    }
}

/// The height `count` above `start`, if it is representable.
pub fn height_after_count(start: Height, count: u32) -> (after: Option<Height>)
    ensures
        after == (if start.0 + count <= u32::MAX {
            Some(Height((start.0 + count) as u32))
        } else {
            None
        }),
{
    match start.0.checked_add(count) {
        Some(after) => Some(Height(after)),
        None => None,
    }
}

/// The number of heights in `start..=end`, zero when the range is empty.
pub open spec fn spec_count_between(start: Height, end: Height) -> int {
    if end.0 < start.0 {
        0
    } else {
        end.0 - start.0 + 1
    }
}

/// The number of heights in `start..=end`, zero when the range is empty.
pub fn count_between(start: Height, end: Height) -> (count: u32)
    requires
        spec_count_between(start, end) <= u32::MAX,
    ensures
        count == spec_count_between(start, end),
{
    if end.0 < start.0 {
        0
    } else {
        end.0 - start.0 + 1
    }
}

/// Which of the two work queues a range belongs to.
#[derive(Copy, Clone, Debug, PartialEq, Eq, Hash, Structural)]
pub enum RangePriority {
    /// Work toward the best peer tip.
    Forward,
    /// Work below the trusted sync start.
    Backfill,
}

impl RangePriority {
    /// The label of the priority in metrics and traces.
    pub fn label(self) -> (label: &'static str)
        ensures
            label@ == (match self {
                RangePriority::Forward => "forward"@,
                RangePriority::Backfill => "backfill"@,
            }),
    {
        match self {
            RangePriority::Forward => "forward",
            RangePriority::Backfill => "backfill",
        }
    }
}

/// One contiguous range of headers to request.
#[derive(Copy, Clone, Debug, PartialEq, Eq, Hash)]
pub struct RangeRequest {
    /// First requested height.
    pub start_height: Height,
    /// Number of requested headers.
    pub count: u32,
    /// Hash that the first header of the range must link to.
    pub link_hash: BlockHash,
    /// Whether the range is authenticated by a checkpoint and only useful whole.
    pub finalized: bool,
    /// Whether commitment roots are requested with the headers.
    pub want_tree_aux_roots: bool,
    /// The queue of the range.
    pub priority: RangePriority,
}

impl View for RangeRequest {
    type V = RangeRequest;

    open spec fn view(&self) -> RangeRequest {
        *self
    }
}

impl RangeRequest {
    /// The range is not empty and ends below the last representable height.
    pub open spec fn wf(self) -> bool {
        self.count >= 1 && self.start_height.0 + self.count <= u32::MAX
    }

    /// Last height of the range.
    pub open spec fn end(self) -> int {
        self.start_height.0 + self.count - 1
    }

    /// Every height of the range.
    pub open spec fn heights(self) -> Set<int> {
        Set::new(|h: int| self.start_height.0 <= h <= self.end())
    }

    /// The same range cut down to `count` headers.
    pub open spec fn with_count(self, count: u32) -> RangeRequest {
        RangeRequest { count, ..self }
    }

    /// Last height of the range.
    pub fn end_height(self) -> (end: Height)
        requires
            self.wf(),
        ensures
            end.0 == self.end(),
    {
        Height(self.start_height.0 + (self.count - 1))
    }

    /// Whether the range lies inside `start..=end`.
    pub fn is_within(self, start: Height, end: Height) -> (within: bool)
        requires
            self.wf(),
        ensures
            within == (start.0 <= self.start_height.0 && self.end() <= end.0),
    {
        self.start_height.0 >= start.0 && self.end_height().0 <= end.0
    }
}

impl MapKey for RangeRequest {
    fn same_key(&self, other: &Self) -> (same: bool) {
        self.start_height == other.start_height && self.count == other.count && same_bytes_32(
            &self.link_hash.0,
            &other.link_hash.0,
        ) && self.finalized == other.finalized && self.want_tree_aux_roots
            == other.want_tree_aux_roots && self.priority == other.priority
    }

    fn duplicate(&self) -> (copy: Self) {
        *self
    }
}

} // verus!
