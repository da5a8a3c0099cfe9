//! What holds of the requests and responses of one peer's routine.

use crate::header_sync::config::ZakuraHeaderSyncConfig;
use crate::header_sync::events::{HeaderSyncMessage, HeaderSyncStatus};
use crate::header_sync::ingest::{Admit, InboundKind};
use crate::header_sync::pull_laws;
use crate::header_sync::ranges::{RangePriority, RangeRequest};
use crate::header_sync::routine::{self, Correlation, HeadersOutcome, HsLocalView};
use crate::header_sync::run::{self, RunAction, RunEvent, RunPhase, RunView};
use crate::header_sync::scheduler::{
    HeaderRequestLimits, HeaderWork, ReturnReason, SchedulerView,
};
use crate::time::Timestamp;
use crate::types::Height;
use vstd::prelude::*;

verus! {

/// Whether a routine is free to ask for headers at `now`: no response is awaited, the peer
/// sent a valid status with its cap, and a rest after an empty response is over.
pub open spec fn is_free(local: HsLocalView, now: Timestamp) -> bool {
    &&& local.in_flight is None
    &&& local.gate.received_status
    &&& local.advertised_max is Some
    &&& local.empty_retry_until matches Some(until) ==> until.nanos <= now.nanos
}

/// A routine pulls exactly where it is free, and looking whether it is changes nothing but
/// that a rest that is over ends.
pub proof fn law_pull_needs_a_free_slot(local: HsLocalView, now: Timestamp)
    ensures
        local.rested(now).may_pull() <==> is_free(local, now),
        local.rested(now) == (HsLocalView {
            empty_retry_until: local.rested(now).empty_retry_until,
            ..local
        }),
        local.rested(now).empty_retry_until == (match local.empty_retry_until {
            Some(until) => if until.nanos <= now.nanos {
                None
            } else {
                Some(until)
            },
            None => None,
        }),
{
}

/// Every range that a routine pulls ends at or below the tip that its peer advertised last,
/// and holds no more headers than the peer's cap and this node's: it is a prefix of a queued
/// range that no request to the peer is out for.
pub proof fn law_pulled_work_is_within_what_the_peer_advertised(
    local: HsLocalView,
    schedule: SchedulerView,
    peer: Seq<u8>,
    generation: u64,
    limits: HeaderRequestLimits,
    now: Timestamp,
)
    requires
        is_free(local, now),
    ensures
        schedule.taken(peer, generation, local.rested(now).pull_caps(), limits).0 matches Some(work)
            ==> {
            &&& work.range.start_height.0 + work.range.count - 1 <= local.gate.advertised_tip.0
            &&& work.count == work.range.count
            &&& work.count <= local.advertised_max->0
            &&& work.count <= limits.hard_max
            &&& work.count <= limits.frame_max
            &&& exists|whole: RangeRequest|
                {
                    &&& #[trigger] pull_laws::is_open_to(
                        schedule,
                        peer,
                        local.gate.advertised_tip,
                        whole,
                    )
                    &&& schedule.forward.contains(whole) || schedule.backward.contains(whole)
                    &&& pull_laws::is_prefix_of(work.range, whole)
                }
        },
{
    pull_laws::law_work_is_a_prefix_of_queued_work(
        schedule,
        peer,
        generation,
        local.rested(now).pull_caps(),
        limits,
    );
}

/// A free routine never passes work over: where a queued range lies within the advertised
/// tip and is open to the peer, it gets work, unless a finalized range is in the way that is
/// too long to be asked for in one piece.
pub proof fn law_free_routine_gets_open_work(
    local: HsLocalView,
    schedule: SchedulerView,
    peer: Seq<u8>,
    generation: u64,
    limits: HeaderRequestLimits,
    now: Timestamp,
    range: RangeRequest,
)
    requires
        is_free(local, now),
        schedule.forward.contains(range) || schedule.backward.contains(range),
        pull_laws::is_open_to(schedule, peer, local.gate.advertised_tip, range),
        forall|other: RangeRequest|
            schedule.forward.contains(other) || schedule.backward.contains(other)
                ==> !#[trigger] other.finalized || (other.count <= local.advertised_max->0
                && other.count <= limits.hard_max && other.count <= limits.frame_max),
    ensures
        schedule.taken(peer, generation, local.rested(now).pull_caps(), limits).0 is Some,
{
    let tip = local.gate.advertised_tip;
    let caps = local.rested(now).pull_caps();
    if exists|i: int|
        0 <= i < schedule.forward.len() && pull_laws::is_open_to(
            schedule,
            peer,
            tip,
            #[trigger] schedule.forward[i],
        ) {
        let i = choose|i: int|
            0 <= i < schedule.forward.len() && pull_laws::is_open_to(
                schedule,
                peer,
                tip,
                #[trigger] schedule.forward[i],
            );
        let k = lemma_first_open_position(schedule, schedule.forward, peer, tip, i);
        pull_laws::law_oldest_open_forward_range_is_taken(
            schedule,
            peer,
            generation,
            caps,
            limits,
            k,
        );
        assert(schedule.forward.contains(schedule.forward[k]));
    } else {
        let i = choose|i: int| 0 <= i < schedule.backward.len() && schedule.backward[i] == range;
        let k = lemma_first_open_position(schedule, schedule.backward, peer, tip, i);
        pull_laws::law_oldest_open_backfill_range_is_taken(
            schedule,
            peer,
            generation,
            caps,
            limits,
            k,
        );
        assert(schedule.backward.contains(schedule.backward[k]));
    }
}

/// The first open position of a queue that has one.
proof fn lemma_first_open_position(
    schedule: SchedulerView,
    queue: Seq<RangeRequest>,
    peer: Seq<u8>,
    tip: Height,
    i: int,
) -> (k: int)
    requires
        0 <= i < queue.len(),
        pull_laws::is_open_to(schedule, peer, tip, queue[i]),
    ensures
        0 <= k < queue.len(),
        pull_laws::is_open_to(schedule, peer, tip, queue[k]),
        forall|j: int|
            0 <= j < k ==> !pull_laws::is_open_to(schedule, peer, tip, #[trigger] queue[j]),
    decreases i,
{
    if exists|j: int|
        0 <= j < i && pull_laws::is_open_to(schedule, peer, tip, #[trigger] queue[j]) {
        let j = choose|j: int|
            0 <= j < i && pull_laws::is_open_to(schedule, peer, tip, #[trigger] queue[j]);
        lemma_first_open_position(schedule, queue, peer, tip, j)
    } else {
        i
    }
}

/// A valid status bounds what is pulled until the next one: no range past its tip, and no
/// more headers than its cap, which is taken for one where it is zero and for this node's own
/// maximum where it is larger.
pub proof fn law_last_status_bounds_pulled_work<H, B>(
    local: HsLocalView,
    config: ZakuraHeaderSyncConfig,
    status: HeaderSyncStatus,
    schedule: SchedulerView,
    peer: Seq<u8>,
    generation: u64,
    then: Timestamp,
    now: Timestamp,
)
    requires
        config.wf(),
        status.anchor_height.0 <= status.tip_height.0,
        status.tip_height.0 > local.gate.advertised_tip.0
            || local.gate.inbound_status_meter.next_allowed.nanos <= then.nanos,
    ensures
        ({
            let after = local.after_message(
                config,
                HeaderSyncMessage::<H, B>::Status(status),
                then,
            );
            &&& after.gate.advertised_tip == status.tip_height
            &&& after.gate.received_status
            &&& after.advertised_max matches Some(max) && 1 <= max <= config.max_advertised_range
                && (max == status.max_headers_per_response || (status.max_headers_per_response == 0
                && max == 1) || (status.max_headers_per_response > config.max_advertised_range
                && max == config.max_advertised_range))
            &&& after.in_flight == local.in_flight
            &&& after.expected == local.expected
            &&& after.outcome == local.outcome
            &&& after.empty_retry_until == local.empty_retry_until
            &&& after.tolerance == local.tolerance
            &&& is_free(after, now) ==> (schedule.taken(
                peer,
                generation,
                after.rested(now).pull_caps(),
                config.request_limits,
            ).0 matches Some(work) ==> work.range.start_height.0 + work.range.count - 1
                <= status.tip_height.0 && work.count <= config.max_advertised_range && (work.count
                <= status.max_headers_per_response || work.count <= 1))
        }),
{
    let after = local.after_message(config, HeaderSyncMessage::<H, B>::Status(status), then);
    if is_free(after, now) {
        law_pulled_work_is_within_what_the_peer_advertised(
            after,
            schedule,
            peer,
            generation,
            config.request_limits,
            now,
        );
    }
}

/// A status that is not valid, and every other message that is no response, leaves what the
/// peer advertised and the request alone.
pub proof fn law_only_valid_statuses_and_responses_change_a_routine<H, B>(
    local: HsLocalView,
    config: ZakuraHeaderSyncConfig,
    message: HeaderSyncMessage<H, B>,
    now: Timestamp,
)
    requires
        match message {
            HeaderSyncMessage::Status(status) => status.anchor_height.0 > status.tip_height.0 || (
            status.tip_height.0 <= local.gate.advertised_tip.0 && now.nanos
                < local.gate.inbound_status_meter.next_allowed.nanos),
            HeaderSyncMessage::Headers { .. } => false,
            HeaderSyncMessage::GetHeaders { .. } => true,
            HeaderSyncMessage::NewBlock(_) => true,
        },
    ensures
        local.after_message(config, message, now) == local,
{
}

/// A response is recorded as filled when it holds a header, and as empty when it holds
/// nothing; nothing else changes with it.
pub proof fn law_response_records_its_outcome<H, B>(
    local: HsLocalView,
    config: ZakuraHeaderSyncConfig,
    headers: Vec<H>,
    body_sizes: Vec<u32>,
    now: Timestamp,
)
    ensures
        ({
            let message = HeaderSyncMessage::<H, B>::Headers { headers, body_sizes };
            let after = local.after_message(config, message, now);
            &&& after == (HsLocalView { outcome: after.outcome, ..local })
            &&& headers@.len() > 0 ==> after.outcome == Some(HeadersOutcome::Filled)
            &&& headers@.len() == 0 && body_sizes@.len() == 0 ==> after.outcome == Some(
                HeadersOutcome::Empty,
            )
            &&& headers@.len() == 0 && body_sizes@.len() > 0 ==> after.outcome == Some(
                HeadersOutcome::Filled,
            )
        }),
{
}

/// A response with headers completes the request and frees the slot at once. One without
/// gives the range back, and frees the slot for after a rest.
pub proof fn law_response_frees_the_slot(
    local: HsLocalView,
    now: Timestamp,
    rest_until: Timestamp,
    range: RangeRequest,
)
    requires
        local.in_flight == Some(range),
    ensures
        ({
            let after = local.outcome_applied(rest_until);
            &&& local.outcome is Some ==> after == (HsLocalView {
                in_flight: None,
                outcome: None,
                empty_retry_until: after.empty_retry_until,
                ..local
            })
            &&& local.outcome == Some(HeadersOutcome::Filled) ==> local.completes()
                && local.given_back() is None && after.empty_retry_until is None
            &&& local.outcome == Some(HeadersOutcome::Empty) ==> !local.completes()
                && local.given_back() == Some(range) && after.empty_retry_until == Some(rest_until)
                && (now.nanos < rest_until.nanos ==> !after.rested(now).may_pull())
            &&& local.outcome is None ==> after == local && !local.completes()
                && local.given_back() is None
        }),
{
    match local.outcome {
        Some(HeadersOutcome::Filled) => {},
        Some(HeadersOutcome::Empty) => {},
        None => {},
    }
}

/// A request that was sent is the one in flight, and its response is expected after those
/// of all requests before it; nothing else changes.
pub proof fn law_sent_request_is_awaited(
    local: HsLocalView,
    work: HeaderWork,
)
    ensures
        ({
            let after = local.requested(work);
            &&& after.in_flight == Some(work.range)
            &&& after.expected.len() == local.expected.len() + 1
            &&& forall|i: int|
                0 <= i < local.expected.len() ==> (#[trigger] after.expected[i])
                    == local.expected[i]
            &&& after.expected.last().start_height == work.range.start_height
            &&& after.expected.last().count == work.count
            &&& after == (HsLocalView {
                expected: after.expected,
                in_flight: after.in_flight,
                ..local
            })
        }),
{
}

/// A response meets the oldest expectation and takes it; with none left it is absorbed as
/// often as expectations were dropped, and is unsolicited after that. A new block is
/// dropped while it comes too soon, and changes nothing. Other messages are always decoded.
pub proof fn law_frames_are_correlated(local: HsLocalView, now: Timestamp)
    ensures
        ({
            let after = local.correlated(InboundKind::Headers, now);
            let found = local.correlation(InboundKind::Headers, now);
            &&& local.expected.len() > 0 ==> found == Correlation::Decode(Some(local.expected[0]))
                && after == (HsLocalView { expected: local.expected.skip(1), ..local })
            &&& local.expected.len() == 0 && local.tolerance > 0 ==> found
                == Correlation::LateCovered && after.tolerance == local.tolerance - 1 && after == (
            HsLocalView { tolerance: after.tolerance, ..local })
            &&& local.expected.len() == 0 && local.tolerance == 0 ==> found
                == Correlation::Unsolicited && after == local
        }),
        ({
            let after = local.correlated(InboundKind::NewBlock, now);
            let open = local.gate.new_block_meter.next_allowed.nanos <= now.nanos;
            &&& open ==> local.correlation(InboundKind::NewBlock, now) == Correlation::Decode(None)
            &&& !open ==> local.correlation(InboundKind::NewBlock, now) == Correlation::Throttled
                && after == local
            &&& after.expected == local.expected && after.in_flight == local.in_flight
                && after.gate.advertised_tip == local.gate.advertised_tip
                && after.gate.received_status == local.gate.received_status
                && after.gate.inbound_status_meter == local.gate.inbound_status_meter
                && after.outcome == local.outcome && after.tolerance == local.tolerance
                && after.advertised_max == local.advertised_max && after.empty_retry_until
                == local.empty_retry_until
        }),
        local.correlation(InboundKind::Control, now) == Correlation::Decode(None),
        local.correlated(InboundKind::Control, now) == local,
{
}

/// A drop of the oldest expectation frees the slot, ends a rest and lets one more late
/// response pass; it touches nothing else.
pub proof fn law_drop_frees_the_slot(local: HsLocalView, start: Height, count: u32)
    requires
        local.expected.len() > 0,
        local.expected[0].start_height == start,
        local.expected[0].count == count,
    ensures
        ({
            let after = local.dropped(start, count);
            &&& after.expected == local.expected.skip(1)
            &&& after.in_flight is None
            &&& after.empty_retry_until is None
            &&& local.tolerance < usize::MAX ==> after.tolerance == local.tolerance + 1
            &&& after.gate == local.gate && after.advertised_max == local.advertised_max
                && after.outcome == local.outcome
        }),
{
}

/// A request and its response, whatever the queue, the peer and the headers: a free run asks
/// for a prefix of queued work within the advertised tip, awaits exactly that response, hands
/// it on, and is free again. The request goes out for the heights that were taken.
pub proof fn law_request_and_response_complete_a_cycle<H, B>(
    run: RunView,
    schedule: SchedulerView,
    config: ZakuraHeaderSyncConfig,
    pulled_at: Timestamp,
    answered_at: Timestamp,
    headers: Vec<H>,
    body_sizes: Vec<u32>,
    action: RunAction<H, B>,
)
    requires
        run.phase is Waiting,
        is_free(run.local, pulled_at),
        run.local.expected.len() == 0,
        run.local.outcome is None,
        config.wf(),
        run.local.advertised_max->0 >= 1,
        forall|i: int| 0 <= i < schedule.forward.len() ==> (#[trigger] schedule.forward[i]).count >= 1,
        forall|i: int|
            0 <= i < schedule.backward.len() ==> (#[trigger] schedule.backward[i]).count >= 1,
        headers@.len() > 0,
        headers@.len() == body_sizes@.len(),
        run::action_for(
            run,
            config,
            RunEvent::<H, B>::Woken,
            pulled_at,
            run.next(schedule, config, RunEvent::<H, B>::Woken, pulled_at),
            action,
        ),
    ensures
        ({
            let pulled = run.next(schedule, config, RunEvent::<H, B>::Woken, pulled_at);
            &&& pulled.end is None
            &&& match pulled.run.phase {
                RunPhase::Sending(work) => {
                    let sent = pulled.run.next(
                        pulled.schedule,
                        config,
                        RunEvent::<H, B>::Sent(true),
                        pulled_at,
                    );
                    let framed = sent.run.next(
                        sent.schedule,
                        config,
                        RunEvent::<H, B>::Frame { guarded: Admit::Pass, kind: InboundKind::Headers },
                        answered_at,
                    );
                    let decoded = framed.run.next(
                        framed.schedule,
                        config,
                        RunEvent::<H, B>::Decoded(
                            Ok(HeaderSyncMessage::Headers { headers, body_sizes }),
                        ),
                        answered_at,
                    );
                    let done = decoded.run.next(
                        decoded.schedule,
                        config,
                        RunEvent::<H, B>::Delivered(true),
                        answered_at,
                    );
                    &&& action == (RunAction::<H, B>::Request {
                        start_height: work.range.start_height,
                        count: work.range.count,
                    })
                    &&& work.range.start_height.0 + work.range.count - 1
                        <= run.local.gate.advertised_tip.0
                    &&& sent.run.phase is Waiting && sent.run.local.in_flight == Some(work.range)
                    &&& sent.schedule == pulled.schedule
                    &&& framed.run.phase matches RunPhase::Decoding(Some(expected))
                        && expected.start_height == work.range.start_height && expected.count
                        == work.range.count
                    &&& decoded.run.phase matches RunPhase::Delivering { verdict, .. }
                        && verdict is Forward
                    &&& done.end is None
                    &&& done.run.local.in_flight is None && done.run.local.expected.len() == 0
                        && done.run.local.outcome is None
                    &&& done.run.phase is Waiting || done.run.phase is Sending
                },
                _ => action == RunAction::<H, B>::Wait && pulled.run.phase is Waiting,
            }
        }),
{
    law_pull_needs_a_free_slot(run.local, pulled_at);
    law_pulled_work_is_within_what_the_peer_advertised(
        run.local,
        schedule,
        run.peer,
        run.generation,
        config.request_limits,
        pulled_at,
    );
    let pulled = run.next(schedule, config, RunEvent::<H, B>::Woken, pulled_at);
    if let RunPhase::Sending(work) = pulled.run.phase {
        pull_laws::law_work_is_a_prefix_of_queued_work(
            schedule,
            run.peer,
            run.generation,
            run.local.rested(pulled_at).pull_caps(),
            config.request_limits,
        );
        assert(work.count >= 1) by {
            let whole = choose|whole: RangeRequest|
                {
                    &&& #[trigger] pull_laws::is_open_to(
                        schedule,
                        run.peer,
                        run.local.rested(pulled_at).pull_caps().advertised_tip,
                        whole,
                    )
                    &&& schedule.forward.contains(whole) || schedule.backward.contains(whole)
                    &&& pull_laws::is_prefix_of(work.range, whole)
                    &&& pull_laws::is_most(
                        work.range.count,
                        whole,
                        run.local.rested(pulled_at).pull_caps(),
                        config.request_limits,
                    )
                };
            assert(whole.count >= 1);
        }
        let sent = pulled.run.next(
            pulled.schedule,
            config,
            RunEvent::<H, B>::Sent(true),
            pulled_at,
        );
        assert(sent.run.local.expected.len() == 1);
        let framed = sent.run.next(
            sent.schedule,
            config,
            RunEvent::<H, B>::Frame { guarded: Admit::Pass, kind: InboundKind::Headers },
            answered_at,
        );
        assert(framed.run.local.expected.len() == 0);
    }
}

/// A request that could not be written, a run that ends, and a response without headers all
/// put the range back: it is first in its queue again, unless it is covered or another session
/// of the peer has it, and the session holds it no more.
pub proof fn law_unanswered_ranges_go_back<H, B>(
    run: RunView,
    schedule: SchedulerView,
    config: ZakuraHeaderSyncConfig,
    range: RangeRequest,
    reason: ReturnReason,
)
    requires
        reason != ReturnReason::Timeout,
    ensures
        ({
            let after = schedule.returned(run.peer, run.generation, range, reason);
            let queue = if range.priority == RangePriority::Forward {
                after.forward
            } else {
                after.backward
            };
            let taken_over = schedule.assigned.contains_key((range, run.peer))
                && schedule.assigned[(range, run.peer)] != run.generation;
            let covered = forall|h: int|
                range.start_height.0 <= h < range.start_height.0 + range.count
                    ==> schedule.covered.contains(h);
            &&& taken_over ==> after == schedule
            &&& !taken_over ==> !after.assigned.contains_key((range, run.peer))
            &&& !taken_over && !covered ==> queue.len() > 0 && queue[0] == range
            &&& !taken_over && covered ==> after.forward == schedule.forward && after.backward
                == schedule.backward
            &&& forall|other: RangeRequest|
                schedule.forward.contains(other) ==> #[trigger] after.forward.contains(other)
            &&& forall|other: RangeRequest|
                schedule.backward.contains(other) ==> #[trigger] after.backward.contains(other)
            &&& after.covered == schedule.covered
            &&& forall|other: RangeRequest, peer: Seq<u8>|
                (other, peer) != (range, run.peer) ==> #[trigger] after.assigned.contains_key(
                    (other, peer),
                ) == schedule.assigned.contains_key((other, peer))
            &&& (run.phase matches RunPhase::Sending(work) && work.range == range && reason
                == ReturnReason::SendFailed) ==> run.next(
                schedule,
                config,
                RunEvent::<H, B>::Sent(false),
                Timestamp { nanos: 0 },
            ).schedule == after
            &&& !(run.phase is Ended) && run.held() == Some(range) && reason
                == ReturnReason::Teardown ==> run.next(
                schedule,
                config,
                RunEvent::<H, B>::Closed,
                Timestamp { nanos: 0 },
            ).schedule == after
            &&& routine::after_given_back(schedule, run.peer, run.generation, Some(range))
                == schedule.returned(
                run.peer,
                run.generation,
                range,
                ReturnReason::EmptyResponse,
            )
        }),
{
    let after = schedule.returned(run.peer, run.generation, range, reason);
    let covered = forall|h: int|
        range.start_height.0 <= h < range.start_height.0 + range.count ==> schedule.covered.contains(
            h,
        );
    assert(covered == schedule.is_covered(range)) by {
        if schedule.is_covered(range) {
            assert forall|h: int|
                range.start_height.0 <= h < range.start_height.0
                    + range.count implies schedule.covered.contains(h) by {
                assert(range.heights().contains(h));
            }
        }
    }
    assert forall|other: RangeRequest| schedule.forward.contains(other) implies #[trigger]
        after.forward.contains(other) by {
        let i = choose|i: int| 0 <= i < schedule.forward.len() && schedule.forward[i] == other;
        if after.forward.len() == schedule.forward.len() {
            assert(after.forward[i] == other);
        } else {
            assert(after.forward[i + 1] == other);
        }
    }
    assert forall|other: RangeRequest| schedule.backward.contains(other) implies #[trigger]
        after.backward.contains(other) by {
        let i = choose|i: int| 0 <= i < schedule.backward.len() && schedule.backward[i] == other;
        if after.backward.len() == schedule.backward.len() {
            assert(after.backward[i] == other);
        } else {
            assert(after.backward[i + 1] == other);
        }
    }
}

} // verus!
