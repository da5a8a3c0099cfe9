//! Token buckets for stream opens and messages.

use crate::limits;
use crate::time::{Clock, RealClock, Timestamp, NANOS_PER_SEC};
use crate::vec_map::VecMap;
use vstd::prelude::*;

verus! {

/// A token bucket that is told the time.
#[derive(Copy, Clone, Debug, PartialEq, Eq, Structural)]
pub struct RateBucket {
    /// The most tokens there can be.
    pub capacity: u32,
    /// The tokens there are.
    pub tokens: u32,
    /// Tokens that come back per second.
    pub refill_per_second: u32,
    /// When tokens last came back.
    pub last_refill: Timestamp,
}

impl RateBucket {
    /// There are never more tokens than the capacity, and never a capacity of zero.
    pub open spec fn wf(self) -> bool {
        &&& self.capacity >= 1
        &&& self.refill_per_second == self.capacity
        &&& self.tokens <= self.capacity
    }

    /// A full bucket at `now`.
    pub open spec fn full(rate: u32, now: Timestamp) -> RateBucket {
        let capacity = limits::at_least_one(rate as int) as u32;
        RateBucket { capacity, tokens: capacity, refill_per_second: capacity, last_refill: now }
    }

    /// The whole tokens that came back between the last refill and `now`.
    pub open spec fn earned(self, now: Timestamp) -> int {
        let product = now.spec_since(self.last_refill) * self.refill_per_second;
        (if product <= u128::MAX {
            product as int
        } else {
            u128::MAX as int
        }) / (NANOS_PER_SEC as int)
    }

    /// The bucket after it was refilled at `now`. While less than one token came back
    /// nothing changes, so that the time is not lost.
    pub open spec fn refilled(self, now: Timestamp) -> RateBucket {
        let earned = self.earned(now);
        if earned == 0 {
            self
        } else {
            RateBucket {
                tokens: limits::spec_min(self.capacity as int, self.tokens + earned) as u32,
                last_refill: now,
                ..self
            }
        }
    }

    /// Whether a token can be taken at `now`.
    pub open spec fn grants(self, now: Timestamp) -> bool {
        self.refilled(now).tokens > 0
    }

    /// The bucket after a token was asked for at `now`.
    pub open spec fn after_take(self, now: Timestamp) -> RateBucket {
        let refilled = self.refilled(now);
        if refilled.tokens > 0 {
            RateBucket { tokens: (refilled.tokens - 1) as u32, ..refilled }
        } else {
            refilled
        }
    }

    /// A full bucket at `now` that holds one second's worth of tokens, at least one.
    pub fn new(refill_per_second: u32, now: Timestamp) -> (bucket: Self)
        ensures
            bucket.wf(),
            bucket == RateBucket::full(refill_per_second, now),
    {
        let capacity: u32 = if refill_per_second >= 1 {
            refill_per_second
        } else {
            1
        };
        RateBucket { capacity, tokens: capacity, refill_per_second: capacity, last_refill: now }
    }

    /// Adds the tokens that came back since the last refill.
    pub fn refill(&mut self, now: Timestamp)
        requires
            old(self).wf(),
        ensures
            final(self).wf(),
            *final(self) == old(self).refilled(now),
    {
        let elapsed: u128 = now.saturating_duration_since(self.last_refill).nanos;
        let product: u128 = match elapsed.checked_mul(self.refill_per_second as u128) {
            Some(product) => product,
            None => u128::MAX,
        };
        let earned: u128 = product / NANOS_PER_SEC;
        if earned == 0 {
            return ;
        }
        let room: u32 = self.capacity - self.tokens;
        if earned >= room as u128 {
            self.tokens = self.capacity;
        } else {
            self.tokens = self.tokens + earned as u32;
        }
        self.last_refill = now;
    }

    /// Takes a token at `now`, if there is one.
    pub fn try_take_at(&mut self, now: Timestamp) -> (taken: bool)
        requires
            old(self).wf(),
        ensures
            final(self).wf(),
            taken == old(self).grants(now),
            *final(self) == old(self).after_take(now),
    {
        self.refill(now);
        if self.tokens == 0 {
            return false;
        }
        self.tokens = self.tokens - 1;
        true
    }
}

/// How many of the tokens asked for at `times` are granted.
pub open spec fn granted(bucket: RateBucket, times: Seq<Timestamp>) -> nat
    decreases times.len(),
{
    if times.len() == 0 {
        0
    } else {
        let now = times[0];
        (if bucket.grants(now) {
            1nat
        } else {
            0nat
        }) + granted(bucket.after_take(now), times.drop_first())
    }
}

/// Over any run of requests, no more tokens are granted than the bucket held plus what
/// its rate brings back up to the last request.
pub proof fn law_rate_is_bounded(bucket: RateBucket, times: Seq<Timestamp>, end: Timestamp)
    requires
        bucket.wf(),
        forall|i: int| 0 <= i < times.len() ==> (#[trigger] times[i]).nanos <= end.nanos,
        bucket.last_refill.nanos <= end.nanos,
    ensures
        granted(bucket, times) * NANOS_PER_SEC <= bucket.tokens * NANOS_PER_SEC
            + bucket.refill_per_second * (end.nanos - bucket.last_refill.nanos),
    decreases times.len(),
{
    if times.len() == 0 {
        assert(bucket.refill_per_second * (end.nanos - bucket.last_refill.nanos) >= 0)
            by (nonlinear_arith)
            requires
                end.nanos >= bucket.last_refill.nanos,
        ;
    } else {
        let now = times[0];
        let refilled = bucket.refilled(now);
        let next = bucket.after_take(now);
        let rest = times.drop_first();
        let rate = bucket.refill_per_second as int;
        let elapsed = now.spec_since(bucket.last_refill) as int;
        let earned = bucket.earned(now);
        lemma_refill_keeps_wf(bucket, now);
        assert(earned * NANOS_PER_SEC <= elapsed * rate) by {
            let product = elapsed * rate;
            let capped = if product <= u128::MAX {
                product
            } else {
                u128::MAX as int
            };
            vstd::arithmetic::div_mod::lemma_fundamental_div_mod(capped, NANOS_PER_SEC as int);
        }
        assert(forall|i: int| 0 <= i < rest.len() ==> rest[i] == times[i + 1]);
        if earned == 0 {
            assert(next.last_refill == bucket.last_refill);
            law_rate_is_bounded(next, rest, end);
        } else {
            assert(elapsed > 0) by (nonlinear_arith)
                requires
                    earned * NANOS_PER_SEC <= elapsed * rate,
                    earned != 0,
                    earned >= 0,
                    elapsed >= 0,
                    rate >= 0,
            ;
            assert(next.last_refill == now);
            law_rate_is_bounded(next, rest, end);
            assert(rate * (end.nanos - now.nanos) + elapsed * rate == rate * (end.nanos
                - bucket.last_refill.nanos)) by (nonlinear_arith)
                requires
                    elapsed == now.nanos - bucket.last_refill.nanos,
            ;
            assert(refilled.tokens <= bucket.tokens + earned);
        }
    }
}

/// Asking for a token keeps a bucket well formed.
proof fn lemma_refill_keeps_wf(bucket: RateBucket, now: Timestamp)
    requires
        bucket.wf(),
    ensures
        bucket.refilled(now).wf(),
        bucket.after_take(now).wf(),
        bucket.earned(now) >= 0,
{
    let product = now.spec_since(bucket.last_refill) * bucket.refill_per_second;
    assert(product >= 0) by (nonlinear_arith)
        requires
            product == now.spec_since(bucket.last_refill) * bucket.refill_per_second,
    ;
}

/// A bucket that has rested for a second is full again.
pub proof fn law_second_refills_bucket(bucket: RateBucket, now: Timestamp)
    requires
        bucket.wf(),
        now.nanos >= bucket.last_refill.nanos + NANOS_PER_SEC,
    ensures
        bucket.refilled(now).tokens == bucket.capacity,
{
    let elapsed = now.spec_since(bucket.last_refill) as int;
    let rate = bucket.refill_per_second as int;
    let product = elapsed * rate;
    assert(product >= NANOS_PER_SEC * rate) by (nonlinear_arith)
        requires
            product == elapsed * rate,
            elapsed >= NANOS_PER_SEC,
            rate >= 1,
    ;
    let capped = if product <= u128::MAX {
        product
    } else {
        u128::MAX as int
    };
    assert(capped >= NANOS_PER_SEC * rate);
    assert(capped / (NANOS_PER_SEC as int) >= rate) by (nonlinear_arith)
        requires
            capped >= NANOS_PER_SEC * rate,
            NANOS_PER_SEC == 1_000_000_000,
    ;
}

/// A token bucket with a clock of its own.
#[derive(Debug)]
pub struct TokenBucket<C> {
    /// The bucket.
    pub bucket: RateBucket,
    /// Its clock.
    pub clock: C,
}

impl TokenBucket<RealClock> {
    /// A full bucket on the production clock.
    pub fn new(refill_per_second: u32) -> (bucket: Self)
        ensures
            bucket.bucket.wf(),
            exists|now: Timestamp|
                call_ensures(RealClock::now, (&bucket.clock,), now) && bucket.bucket
                    == RateBucket::full(refill_per_second, now),
    {
        TokenBucket::with_clock(refill_per_second, RealClock::new())
    }
}

impl<C: Clock> TokenBucket<C> {
    /// A full bucket on `clock`.
    pub fn with_clock(refill_per_second: u32, clock: C) -> (bucket: Self)
        ensures
            bucket.bucket.wf(),
            bucket.clock == clock,
            exists|now: Timestamp|
                call_ensures(C::now, (&clock,), now) && bucket.bucket == RateBucket::full(
                    refill_per_second,
                    now,
                ),
    {
        let now = clock.now();
        TokenBucket { bucket: RateBucket::new(refill_per_second, now), clock }
    }

    /// Takes a token, if there is one at the clock's present.
    pub fn try_take(&mut self) -> (taken: bool)
        requires
            old(self).bucket.wf(),
        ensures
            final(self).bucket.wf(),
            final(self).clock == old(self).clock,
            exists|now: Timestamp|
                call_ensures(C::now, (&old(self).clock,), now) && taken == old(
                    self,
                ).bucket.grants(now) && final(self).bucket == old(self).bucket.after_take(now),
    {
        let now = self.clock.now();
        self.bucket.try_take_at(now)
    }
}

/// The buckets after a stream of `kind` was opened: a kind keeps the bucket it has.
pub open spec fn opened(
    buckets: Map<u16, RateBucket>,
    kind: u16,
    rate: u32,
    now: Timestamp,
) -> Map<u16, RateBucket> {
    if buckets.contains_key(kind) {
        buckets
    } else {
        buckets.insert(kind, RateBucket::full(rate, now))
    }
}

/// The buckets after a token of `kind` was asked for.
pub open spec fn drawn(buckets: Map<u16, RateBucket>, kind: u16, now: Timestamp) -> Map<
    u16,
    RateBucket,
> {
    buckets.insert(kind, buckets[kind].after_take(now))
}

/// The message-rate buckets of one connection, one for each stream kind in use. Every
/// stream of a kind draws from the bucket of its kind.
#[derive(Debug)]
pub struct MessageRateBuckets {
    buckets: VecMap<u16, RateBucket>,
}

impl View for MessageRateBuckets {
    type V = Map<u16, RateBucket>;

    closed spec fn view(&self) -> Map<u16, RateBucket> {
        self.buckets@
    }
}

impl MessageRateBuckets {
    /// There is one bucket for each kind, and each is well formed.
    pub closed spec fn wf(&self) -> bool {
        &&& self.buckets.wf()
        &&& forall|kind: u16| #[trigger] self@.contains_key(kind) ==> self@[kind].wf()
    }

    /// No buckets yet.
    pub fn new() -> (buckets: Self)
        ensures
            buckets.wf(),
            buckets@ == Map::<u16, RateBucket>::empty(),
    {
        MessageRateBuckets { buckets: VecMap::new() }
    }

    /// The number of kinds with a bucket.
    pub fn len(&self) -> (len: usize)
        requires
            self.wf(),
        ensures
            len == self@.len(),
            self@.dom().finite(),
    {
        self.buckets.len()
    }

    /// Makes sure that there is a bucket for `stream_kind`. A kind keeps the bucket it
    /// has; a new one starts full.
    pub fn message_bucket_for(&mut self, stream_kind: u16, message_rate: u32, now: Timestamp)
        requires
            old(self).wf(),
        ensures
            final(self).wf(),
            final(self)@ == opened(old(self)@, stream_kind, message_rate, now),
            final(self)@.contains_key(stream_kind),
            final(self)@.dom().finite(),
            final(self)@.len() == old(self)@.len() + (if old(self)@.contains_key(stream_kind) {
                0int
            } else {
                1
            }),
    {
        proof {
            self.buckets.lemma_view();
        }
        if self.buckets.contains_key(&stream_kind) {
            return ;
        }
        let bucket = RateBucket::new(message_rate, now);
        self.buckets.insert(stream_kind, bucket);
        assert forall|kind: u16| #[trigger] self@.contains_key(kind) implies self@[kind].wf() by {
            assert(kind == stream_kind || old(self)@.contains_key(kind));
        }
    }

    /// The bucket of `stream_kind`, if it has one.
    pub fn bucket(&self, stream_kind: u16) -> (bucket: Option<RateBucket>)
        requires
            self.wf(),
        ensures
            bucket == (if self@.contains_key(stream_kind) {
                Some(self@[stream_kind])
            } else {
                None
            }),
            bucket matches Some(bucket) ==> bucket.wf(),
    {
        assert(self@.contains_key(stream_kind) ==> self@[stream_kind].wf());
        match self.buckets.get(&stream_kind) {
            Some(bucket) => Some(*bucket),
            None => None,
        }
    }

    /// Puts the bucket of `stream_kind` back after it was drawn from.
    pub fn put_back(&mut self, stream_kind: u16, bucket: RateBucket)
        requires
            old(self).wf(),
            bucket.wf(),
        ensures
            final(self).wf(),
            final(self)@ == old(self)@.insert(stream_kind, bucket),
    {
        self.buckets.insert(stream_kind, bucket);
        assert forall|kind: u16| #[trigger] self@.contains_key(kind) implies self@[kind].wf() by {
            assert(kind == stream_kind || old(self)@.contains_key(kind));
        }
    }

    /// Takes a token from the bucket of `stream_kind` at `now`, if there is one.
    pub fn try_take(&mut self, stream_kind: u16, now: Timestamp) -> (taken: bool)
        requires
            old(self).wf(),
            old(self)@.contains_key(stream_kind),
        ensures
            final(self).wf(),
            taken == old(self)@[stream_kind].grants(now),
            final(self)@ == drawn(old(self)@, stream_kind, now),
    {
        let mut bucket = match self.bucket(stream_kind) {
            Some(bucket) => bucket,
            None => RateBucket::new(1, now),
        };
        let taken = bucket.try_take_at(now);
        self.put_back(stream_kind, bucket);
        taken
    }
}

/// Whether a message passes its connection's limits.
#[derive(Copy, Clone, Debug, PartialEq, Eq, Structural)]
pub enum InboundMessageAdmission {
    /// The message is taken.
    Admit,
    /// The message is larger than the connection allows.
    Oversize,
    /// The message came too soon.
    Throttled,
}

/// Whether a message of `payload_len` bytes passes at `now`. An oversize message costs no
/// token.
pub fn admit_inbound_message(
    payload_len: usize,
    max_message_bytes: u32,
    bucket: &mut RateBucket,
    now: Timestamp,
) -> (admission: InboundMessageAdmission)
    requires
        old(bucket).wf(),
    ensures
        final(bucket).wf(),
        admission == (if payload_len > max_message_bytes {
            InboundMessageAdmission::Oversize
        } else if old(bucket).grants(now) {
            InboundMessageAdmission::Admit
        } else {
            InboundMessageAdmission::Throttled
        }),
        *final(bucket) == (if payload_len > max_message_bytes {
            *old(bucket)
        } else {
            old(bucket).after_take(now)
        }),
{
    if payload_len > max_message_bytes as usize {
        return InboundMessageAdmission::Oversize;
    }
    if !bucket.try_take_at(now) {
        return InboundMessageAdmission::Throttled;
    }
    InboundMessageAdmission::Admit
}

/// Streams of one kind share one budget: opening another stream of a kind that has been
/// drawn from brings no token back, and drawing for one kind leaves every other kind
/// alone.
pub proof fn law_kinds_have_one_budget_each(
    buckets: Map<u16, RateBucket>,
    kind: u16,
    other: u16,
    rate: u32,
    now: Timestamp,
    later: Timestamp,
)
    requires
        buckets.contains_key(kind),
        kind != other,
    ensures
        opened(drawn(buckets, kind, now), kind, rate, later) == drawn(buckets, kind, now),
        drawn(buckets, kind, now).contains_key(other) == buckets.contains_key(other),
        buckets.contains_key(other) ==> drawn(buckets, kind, now)[other] == buckets[other],
{
}

/// A kind keeps the bucket that it got first: opening another stream of it changes nothing,
/// whatever its rate, and no bucket is refilled. A kind that is new adds one bucket, and
/// leaves those that are there alone.
pub proof fn law_kinds_keep_their_bucket(
    buckets: Map<u16, RateBucket>,
    kind: u16,
    first_rate: u32,
    now: Timestamp,
    other: u16,
    rate: u32,
    later: Timestamp,
)
    requires
        buckets.dom().finite(),
    ensures
        ({
            let before = opened(buckets, kind, first_rate, now);
            let after = opened(before, other, rate, later);
            &&& before.contains_key(kind) && after.contains_key(kind)
            &&& after[kind] == before[kind]
            &&& other == kind ==> after == before
            &&& !before.contains_key(other) ==> after.len() == before.len() + 1 && after[other]
                == RateBucket::full(rate, later)
        }),
{
}

/// A token is granted exactly where one is left or has come back since the last refill, and
/// a refused request costs nothing, not even the time that was waited.
pub proof fn law_tokens_come_back_with_time(bucket: RateBucket, now: Timestamp)
    requires
        bucket.wf(),
        now.nanos >= bucket.last_refill.nanos,
        (now.nanos - bucket.last_refill.nanos) * bucket.refill_per_second <= u128::MAX,
    ensures
        ({
            let earned = (now.nanos - bucket.last_refill.nanos) * bucket.refill_per_second;
            let after = bucket.after_take(now);
            let held = after.tokens + 1;
            &&& bucket.grants(now) <==> bucket.tokens > 0 || earned >= NANOS_PER_SEC
            &&& !bucket.grants(now) ==> after == bucket
            &&& bucket.grants(now) ==> held <= bucket.capacity && (held == bucket.capacity || (held
                - bucket.tokens) * NANOS_PER_SEC <= earned) && (held == bucket.capacity || earned < (
            held - bucket.tokens + 1) * NANOS_PER_SEC)
            &&& earned < NANOS_PER_SEC ==> after.last_refill == bucket.last_refill
            &&& earned >= NANOS_PER_SEC ==> after.last_refill == now
            &&& after.capacity == bucket.capacity && after.refill_per_second
                == bucket.refill_per_second
        }),
{
    let elapsed = now.spec_since(bucket.last_refill) as int;
    let product = elapsed * bucket.refill_per_second;
    assert(product >= 0) by (nonlinear_arith)
        requires
            product == elapsed * bucket.refill_per_second,
            elapsed >= 0,
    ;
    let whole = bucket.earned(now);
    vstd::arithmetic::div_mod::lemma_fundamental_div_mod(product, NANOS_PER_SEC as int);
    assert(whole * NANOS_PER_SEC <= product < (whole + 1) * NANOS_PER_SEC) by (nonlinear_arith)
        requires
            product == NANOS_PER_SEC * (product / (NANOS_PER_SEC as int)) + product % (
            NANOS_PER_SEC as int),
            whole == product / (NANOS_PER_SEC as int),
            0 <= product % (NANOS_PER_SEC as int) < NANOS_PER_SEC,
    ;
    lemma_refill_keeps_wf(bucket, now);
    assert(whole == 0 <==> product < NANOS_PER_SEC) by (nonlinear_arith)
        requires
            whole * NANOS_PER_SEC <= product < (whole + 1) * NANOS_PER_SEC,
            whole >= 0,
            NANOS_PER_SEC == 1_000_000_000,
    ;
}

/// A fresh bucket holds one second's worth of tokens, and at least one; each can be taken at
/// once.
pub proof fn law_fresh_buckets_are_full(rate: u32, now: Timestamp)
    ensures
        ({
            let bucket = RateBucket::full(rate, now);
            &&& bucket.tokens >= 1
            &&& rate >= 1 ==> bucket.tokens == rate
            &&& rate == 0 ==> bucket.tokens == 1
            &&& bucket.capacity == bucket.tokens
            &&& bucket.refill_per_second == bucket.tokens
            &&& bucket.last_refill == now
            &&& bucket.grants(now)
        }),
{
    let bucket = RateBucket::full(rate, now);
    lemma_refill_keeps_wf(bucket, now);
}

} // verus!
