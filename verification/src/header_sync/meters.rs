//! Minimum-interval meters.

use crate::time::{Duration, Timestamp};
use vstd::prelude::*;

verus! {

/// Admits one event per interval.
#[derive(Copy, Clone, Debug, PartialEq, Eq, Structural)]
pub struct RateMeter {
    /// The earliest instant at which the next event is admitted.
    pub next_allowed: Timestamp,
    /// The least time between two admitted events.
    pub interval: Duration,
}

impl RateMeter {
    /// Whether an event at `now` is admitted.
    pub open spec fn admits(self, now: Timestamp) -> bool {
        now.nanos >= self.next_allowed.nanos
    }

    /// The meter after an event was admitted at `now`.
    pub open spec fn after_taken(self, now: Timestamp) -> RateMeter {
        RateMeter {
            next_allowed: Timestamp { nanos: (now.nanos + self.interval.nanos) as u128 },
            ..self
        }
    }

    /// The meter after an event was offered at `now`.
    pub open spec fn after_offered(self, now: Timestamp) -> RateMeter {
        if self.admits(now) {
            self.after_taken(now)
        } else {
            self
        }
    }

    /// Whether `now` lies an interval before the end of time.
    pub open spec fn in_range(self, now: Timestamp) -> bool {
        now.nanos + self.interval.nanos <= u128::MAX
    }

    /// A meter that admits its first event from `now` on.
    pub fn new(interval: Duration, now: Timestamp) -> (meter: Self)
        ensures
            meter == (RateMeter { next_allowed: now, interval }),
    {
        RateMeter { next_allowed: now, interval }
    }

    /// Takes the token of the current interval, if it is still there.
    pub fn try_take(&mut self, now: Timestamp) -> (taken: bool)
        requires
            old(self).in_range(now),
        ensures
            taken == old(self).admits(now),
            *final(self) == old(self).after_offered(now),
    {
        if now.nanos < self.next_allowed.nanos {
            return false;
        }
        self.next_allowed = now.plus(self.interval);
        true
    }

    /// Spends the token of the current interval, whether or not it was there.
    pub fn mark_taken(&mut self, now: Timestamp)
        requires
            old(self).in_range(now),
        ensures
            *final(self) == old(self).after_taken(now),
    {
        self.next_allowed = now.plus(self.interval);
    }
}

/// Two admitted events are at least one interval apart.
pub proof fn law_admitted_events_are_spaced(meter: RateMeter, first: Timestamp, second: Timestamp)
    requires
        meter.in_range(first),
        meter.admits(first),
    ensures
        meter.after_offered(first).admits(second) <==> second.nanos >= first.nanos
            + meter.interval.nanos,
{
}

/// A peer's meters.
#[derive(Copy, Clone, Debug, PartialEq, Eq, Structural)]
pub struct HeaderSyncPeerMeters {
    /// Unsolicited status refreshes.
    pub unsolicited: RateMeter,
    /// Inbound statuses.
    pub inbound_status: RateMeter,
    /// Inbound new blocks.
    pub inbound_new_block: RateMeter,
    /// Redundant keepalive statuses. The interval is at least twice the remote's
    /// minimum, so that a keepalive is never taken for status spam, and the first one
    /// is due a full interval after the connection.
    pub keepalive: RateMeter,
}

/// The interval of keepalive statuses: the refresh interval, but at least twice the
/// remote's inbound minimum, capped at the longest representable span.
pub open spec fn keepalive_nanos(refresh: Duration, status_min: Duration) -> int {
    let floor = if 2 * status_min.nanos <= crate::time::MAX_DURATION_NANOS {
        2 * status_min.nanos
    } else {
        crate::time::MAX_DURATION_NANOS as int
    };
    if refresh.nanos >= floor {
        refresh.nanos as int
    } else {
        floor
    }
}

/// Keepalive statuses are never closer together than the remote's inbound minimum, so
/// that it never takes one for spam.
pub proof fn law_keepalive_outlasts_status_minimum(refresh: Duration, status_min: Duration)
    requires
        status_min.wf(),
    ensures
        keepalive_nanos(refresh, status_min) >= status_min.nanos,
        keepalive_nanos(refresh, status_min) >= refresh.nanos,
{
}

impl HeaderSyncPeerMeters {
    /// Fresh meters at `now`.
    pub fn new(
        status_refresh_interval: Duration,
        inbound_status_min_interval: Duration,
        inbound_new_block_min_interval: Duration,
        now: Timestamp,
    ) -> (meters: Self)
        requires
            inbound_status_min_interval.wf(),
            now.nanos + keepalive_nanos(status_refresh_interval, inbound_status_min_interval)
                <= u128::MAX,
        ensures
            meters.unsolicited == (RateMeter {
                next_allowed: now,
                interval: status_refresh_interval,
            }),
            meters.inbound_status == (RateMeter {
                next_allowed: now,
                interval: inbound_status_min_interval,
            }),
            meters.inbound_new_block == (RateMeter {
                next_allowed: now,
                interval: inbound_new_block_min_interval,
            }),
            meters.keepalive.interval.nanos == keepalive_nanos(
                status_refresh_interval,
                inbound_status_min_interval,
            ),
            meters.keepalive.next_allowed.nanos == now.nanos + meters.keepalive.interval.nanos,
    {
        let keepalive_interval = status_refresh_interval.max(
            inbound_status_min_interval.saturating_double(),
        );
        let mut keepalive = RateMeter::new(keepalive_interval, now);
        keepalive.mark_taken(now);
        HeaderSyncPeerMeters {
            unsolicited: RateMeter::new(status_refresh_interval, now),
            inbound_status: RateMeter::new(inbound_status_min_interval, now),
            inbound_new_block: RateMeter::new(inbound_new_block_min_interval, now),
            keepalive,
        }
    }
}

} // verus!
