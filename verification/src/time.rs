//! Instants and durations as plain nanosecond counts.

use vstd::prelude::*;

verus! {

/// Nanoseconds in one millisecond.
pub const NANOS_PER_MILLI: u128 = 1_000_000;

/// Nanoseconds in one second.
pub const NANOS_PER_SEC: u128 = 1_000_000_000;

/// The longest representable duration: `u64::MAX` seconds and 999,999,999
/// nanoseconds.
pub const MAX_DURATION_NANOS: u128 = 18_446_744_073_709_551_615_999_999_999;

/// A span of time.
#[derive(Copy, Clone, Debug, PartialEq, Eq, PartialOrd, Ord, Structural)]
pub struct Duration {
    /// Length in nanoseconds.
    pub nanos: u128,
}

impl Duration {
    /// Whether the length is representable.
    pub open spec fn wf(self) -> bool {
        self.nanos <= MAX_DURATION_NANOS
    }

    /// A duration of whole seconds.
    pub fn from_secs(secs: u64) -> (duration: Duration)
        ensures
            duration.nanos == secs * NANOS_PER_SEC,
            duration.wf(),
    {
        Duration { nanos: secs as u128 * NANOS_PER_SEC }
    }

    /// A duration of whole milliseconds.
    pub fn from_millis(millis: u64) -> (duration: Duration)
        ensures
            duration.nanos == millis * NANOS_PER_MILLI,
            duration.wf(),
    {
        Duration { nanos: millis as u128 * NANOS_PER_MILLI }
    }

    /// Whole milliseconds, rounded down.
    pub open spec fn spec_millis(self) -> nat {
        (self.nanos as nat) / (NANOS_PER_MILLI as nat)
    }

    /// Whole milliseconds, rounded down.
    pub fn as_millis(self) -> (millis: u128)
        ensures
            millis == self.spec_millis(),
    {
        self.nanos / NANOS_PER_MILLI
    }

    /// The longer of two durations.
    pub fn max(self, other: Duration) -> (duration: Duration)
        ensures
            duration == (if self.nanos >= other.nanos { self } else { other }),
    {
        if self.nanos >= other.nanos {
            self
        } else {
            other
        }
    }

    /// The shorter of two durations.
    pub fn min(self, other: Duration) -> (duration: Duration)
        ensures
            duration == (if self.nanos <= other.nanos { self } else { other }),
    {
        if self.nanos <= other.nanos {
            self
        } else {
            other
        }
    }

    /// Twice the duration, capped at the longest representable one.
    pub fn saturating_double(self) -> (duration: Duration)
        requires
            self.wf(),
        ensures
            duration.wf(),
            duration.nanos == (if 2 * self.nanos <= MAX_DURATION_NANOS {
                2 * self.nanos
            } else {
                MAX_DURATION_NANOS as int
            }),
    {
        let doubled: u128 = self.nanos + self.nanos;
        if doubled <= MAX_DURATION_NANOS {
            Duration { nanos: doubled }
        } else {
            Duration { nanos: MAX_DURATION_NANOS }
        }
    }
}

/// A monotonic instant: nanoseconds since the clock's own origin.
#[derive(Copy, Clone, Debug, PartialEq, Eq, PartialOrd, Ord, Structural)]
pub struct Timestamp {
    /// Nanoseconds since the origin.
    pub nanos: u128,
}

impl Timestamp {
    /// The time that passed since `earlier`, zero when `earlier` is later.
    pub open spec fn spec_since(self, earlier: Timestamp) -> nat {
        if self.nanos >= earlier.nanos {
            (self.nanos - earlier.nanos) as nat
        } else {
            0
        }
    }

    /// The time that passed since `earlier`, zero when `earlier` is later.
    pub fn saturating_duration_since(self, earlier: Timestamp) -> (elapsed: Duration)
        ensures
            elapsed.nanos == self.spec_since(earlier),
    {
        Duration { nanos: self.nanos.saturating_sub(earlier.nanos) }
    }

    /// The instant `span` after this one.
    pub fn plus(self, span: Duration) -> (later: Timestamp)
        requires
            self.nanos + span.nanos <= u128::MAX,
        ensures
            later.nanos == self.nanos + span.nanos,
    {
        Timestamp { nanos: self.nanos + span.nanos }
    }
}

/// Clock used by rate-limit logic.
pub trait Clock: Clone + Send + Sync + 'static {
    /// The current monotonic instant.
    fn now(&self) -> Timestamp;
}

/// Declares `tokio::time::Instant`, which a [`RealClock`] counts from.
#[verifier::external_type_specification]
#[verifier::external_body]
pub struct ExTokioInstant(tokio::time::Instant);

/// Reads the runtime's clock: calls `tokio::time::Instant::now`. Nothing is
/// claimed of the instant read.
#[verifier::external_body]
fn runtime_now() -> (instant: tokio::time::Instant) {
    tokio::time::Instant::now()
}

/// Nanoseconds since `origin` on the runtime's clock: calls
/// `tokio::time::Instant::elapsed`. The span is a representable duration; which one
/// depends on when the clock is read, and is left unsaid.
#[verifier::external_body]
fn nanos_since(origin: &tokio::time::Instant) -> (nanos: u128)
    ensures
        nanos <= MAX_DURATION_NANOS,
{
    origin.elapsed().as_nanos()
}

/// Production clock: nanoseconds on the runtime's monotonic clock since the
/// clock was made.
#[derive(Copy, Clone, Debug)]
pub struct RealClock {
    origin: tokio::time::Instant,
}

impl RealClock {
    /// A clock whose origin is the present.
    pub fn new() -> RealClock {
        RealClock { origin: runtime_now() }
    }
}

impl Default for RealClock {
    fn default() -> RealClock {
        RealClock::new()
    }
}

impl Clock for RealClock {
    /// The span since the clock's origin is a representable duration, so that another
    /// representable one can be added to the instant read.
    fn now(&self) -> (now: Timestamp)
        ensures
            now.nanos <= MAX_DURATION_NANOS,
    {
        Timestamp { nanos: nanos_since(&self.origin) }
    }
}

} // verus!
