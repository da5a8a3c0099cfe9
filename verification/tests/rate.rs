use std::sync::{Arc, Mutex};

use zakura::rate::{
    admit_inbound_message, InboundMessageAdmission, MessageRateBuckets, RateBucket, TokenBucket,
};
use zakura::time::{Clock, Duration, RealClock, Timestamp};

#[derive(Clone)]
struct TestClock(Arc<Mutex<u128>>);

impl TestClock {
    fn new() -> Self {
        TestClock(Arc::new(Mutex::new(0)))
    }

    fn advance(&self, span: Duration) {
        *self.0.lock().expect("the clock is never poisoned") += span.nanos;
    }
}

impl Clock for TestClock {
    fn now(&self) -> Timestamp {
        Timestamp {
            nanos: *self.0.lock().expect("the clock is never poisoned"),
        }
    }
}

#[test]
fn token_bucket_rejects_churn_until_refill() {
    let clock = TestClock::new();
    let mut bucket = TokenBucket::with_clock(2, clock.clone());

    assert!(bucket.try_take());
    assert!(bucket.try_take());
    assert!(!bucket.try_take());
    clock.advance(Duration::from_millis(500));
    assert!(bucket.try_take());
    assert!(!bucket.try_take());
    clock.advance(Duration::from_millis(500));
    assert!(bucket.try_take());
}

#[test]
fn same_kind_streams_share_one_connection_message_budget() {
    let clock = TestClock::new();
    let mut buckets = MessageRateBuckets::new();
    let rate = 4;

    // Two streams of the same kind draw from the same bucket.
    buckets.message_bucket_for(1, rate, clock.now());
    buckets.message_bucket_for(1, rate, clock.now());
    assert_eq!(
        buckets.len(),
        1,
        "no extra bucket created for the same kind"
    );

    let mut accepted = 0;
    for _ in 0..rate as usize * 4 {
        if buckets.try_take(1, clock.now()) {
            accepted += 1;
        }
        if buckets.try_take(1, clock.now()) {
            accepted += 1;
        }
    }
    assert_eq!(
        accepted, rate as usize,
        "the second same-kind stream must NOT get a fresh full budget"
    );

    clock.advance(Duration::from_secs(1));
    let mut refilled = 0;
    for _ in 0..rate as usize * 4 {
        if buckets.try_take(1, clock.now()) {
            refilled += 1;
        }
        if buckets.try_take(1, clock.now()) {
            refilled += 1;
        }
    }
    assert_eq!(
        refilled, rate as usize,
        "refill restores one shared budget, not one-per-stream"
    );
}

#[test]
fn different_kinds_get_independent_message_budgets() {
    let clock = TestClock::new();
    let mut buckets = MessageRateBuckets::new();

    buckets.message_bucket_for(1, 2, clock.now());
    buckets.message_bucket_for(2, 2, clock.now());
    assert_eq!(buckets.len(), 2);

    // Drain the request budget; gossip must be untouched.
    assert!(buckets.try_take(1, clock.now()));
    assert!(buckets.try_take(1, clock.now()));
    assert!(!buckets.try_take(1, clock.now()));
    assert!(buckets.try_take(2, clock.now()));
    assert!(buckets.try_take(2, clock.now()));
    assert!(!buckets.try_take(2, clock.now()));
}

#[test]
fn bucket_keeps_time_below_one_token() {
    let start = Timestamp { nanos: 0 };
    let mut bucket = RateBucket::new(1, start);
    assert!(bucket.try_take_at(start));
    assert!(!bucket.try_take_at(Timestamp { nanos: 600_000_000 }));
    assert!(!bucket.try_take_at(Timestamp { nanos: 999_999_999 }));
    assert!(bucket.try_take_at(Timestamp { nanos: 1_000_000_000 }));
}

#[test]
fn bucket_never_exceeds_its_capacity() {
    let mut bucket = RateBucket::new(0, Timestamp { nanos: 0 });
    assert_eq!(bucket.capacity, 1);
    bucket.refill(Timestamp { nanos: u128::MAX });
    assert_eq!(bucket.tokens, 1);
}

#[test]
fn oversize_messages_cost_no_token() {
    let now = Timestamp { nanos: 0 };
    let mut bucket = RateBucket::new(1, now);
    assert_eq!(
        admit_inbound_message(11, 10, &mut bucket, now),
        InboundMessageAdmission::Oversize
    );
    assert_eq!(bucket.tokens, 1);
    assert_eq!(
        admit_inbound_message(10, 10, &mut bucket, now),
        InboundMessageAdmission::Admit
    );
    assert_eq!(
        admit_inbound_message(10, 10, &mut bucket, now),
        InboundMessageAdmission::Throttled
    );
}

#[test]
fn real_clock_moves_forward() {
    let clock = RealClock::new();
    let start = std::time::Instant::now();
    let before = clock.now();
    while start.elapsed() < std::time::Duration::from_millis(5) {}
    let after = clock.now();
    let passed = after.saturating_duration_since(before);
    assert!(passed >= Duration::from_millis(4));
    assert!(passed <= Duration::from_secs(10));
    let mut bucket = TokenBucket::new(1);
    assert!(bucket.try_take());
    assert!(!bucket.try_take());
}

#[test]
fn kinds_keep_the_bucket_they_got_first() {
    let now = Timestamp { nanos: 0 };
    let mut buckets = MessageRateBuckets::new();
    buckets.message_bucket_for(1, 2, now);
    assert!(buckets.try_take(1, now));
    let drawn = buckets.bucket(1);
    buckets.message_bucket_for(1, 50, now);
    assert_eq!(buckets.bucket(1), drawn);
    assert_eq!(buckets.len(), 1);
    buckets.message_bucket_for(2, 50, now);
    assert_eq!(buckets.bucket(1), drawn);
    assert_eq!(buckets.bucket(2), Some(RateBucket::new(50, now)));
    assert_eq!(buckets.len(), 2);
}
