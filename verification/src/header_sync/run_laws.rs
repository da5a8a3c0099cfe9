//! What holds of whole runs of a peer's routine.

use crate::header_sync::config::ZakuraHeaderSyncConfig;
use crate::header_sync::events::ExpectedHeadersResponse;
use crate::header_sync::ingest::{self, Admit, Ingest, RejectCause, SinkReject};
use crate::header_sync::ranges::RangeRequest;
use crate::header_sync::routine::{self, Correlation, HeaderSyncPeerCommand, HeadersOutcome};
use crate::header_sync::run::{RunEvent, RunPhase, RunStep, RunView};
use crate::header_sync::scheduler::{ReturnReason, SchedulerView};
use crate::time::Timestamp;
use vstd::prelude::*;

verus! {

/// An event, with when it came and the shared queue as it was found.
pub struct RunInput<H, B> {
    /// The event.
    pub event: RunEvent<H, B>,
    /// When it came.
    pub now: Timestamp,
    /// The shared queue before it.
    pub schedule: SchedulerView,
}

impl RunView {
    /// What follows an input.
    pub open spec fn step<H, B>(self, config: ZakuraHeaderSyncConfig, input: RunInput<H, B>) -> RunStep {
        self.next(input.schedule, config, input.event, input.now)
    }
}

/// How a run ends over a sequence of inputs, if it does.
pub open spec fn run_end<H, B>(
    run: RunView,
    config: ZakuraHeaderSyncConfig,
    inputs: Seq<RunInput<H, B>>,
) -> Option<Result<(), SinkReject>>
    decreases inputs.len(),
{
    if inputs.len() == 0 {
        None
    } else {
        let step = run.step(config, inputs[0]);
        match step.end {
            Some(end) => Some(end),
            None => run_end(step.run, config, inputs.drop_first()),
        }
    }
}

/// Whether an input shows that the peer violated the protocol: a frame that the guard
/// refuses, a response that nothing asked for, or a frame that does not decode.
pub open spec fn violates<H, B>(run: RunView, input: RunInput<H, B>) -> bool {
    match (run.phase, input.event) {
        (RunPhase::Waiting, RunEvent::Frame { guarded, kind }) => match guarded {
            Admit::Reject(_) => true,
            Admit::Throttle => false,
            Admit::Pass => run.local.correlation(kind, input.now) == Correlation::Unsolicited,
        },
        (RunPhase::Decoding(_), RunEvent::Decoded(Err(_))) => true,
        _ => false,
    }
}

/// Whether no input of a run shows a violation.
pub open spec fn violation_free<H, B>(
    run: RunView,
    config: ZakuraHeaderSyncConfig,
    inputs: Seq<RunInput<H, B>>,
) -> bool
    decreases inputs.len(),
{
    inputs.len() == 0 || (!violates(run, inputs[0]) && violation_free(
        run.step(config, inputs[0]).run,
        config,
        inputs.drop_first(),
    ))
}

/// Whether the range that a run held is back: it is covered, first in its queue or held by
/// another session of the peer, and this session does not hold it any more.
pub open spec fn is_back(
    schedule: SchedulerView,
    peer: Seq<u8>,
    generation: u64,
    range: RangeRequest,
) -> bool {
    &&& schedule.is_covered(range) || schedule.held_by_other(peer, generation, range) || (
    schedule.queue(range.priority).len() > 0 && schedule.queue(range.priority)[0] == range)
    &&& !(schedule.assigned.contains_key((range, peer)) && schedule.assigned[(range, peer)]
        == generation)
}

/// Whether every input of a run that ends it leaves nothing behind: what the run held is
/// back.
pub open spec fn gives_back<H, B>(
    run: RunView,
    config: ZakuraHeaderSyncConfig,
    inputs: Seq<RunInput<H, B>>,
) -> bool
    decreases inputs.len(),
{
    inputs.len() == 0 || {
        let step = run.step(config, inputs[0]);
        &&& step.end is Some ==> {
            &&& step.run.held() is None
            &&& run.held() matches Some(range) ==> is_back(
                step.schedule,
                run.peer,
                run.generation,
                range,
            )
        }
        &&& gives_back(step.run, config, inputs.drop_first())
    }
}

/// A run ends well or with a protocol reject, whatever happens: a full reactor queue never
/// ends it.
pub proof fn law_run_ends_well_or_with_protocol_reject<H, B>(
    run: RunView,
    config: ZakuraHeaderSyncConfig,
    inputs: Seq<RunInput<H, B>>,
)
    ensures
        run_end(run, config, inputs) matches Some(Err(reject)) ==> reject is Protocol,
    decreases inputs.len(),
{
    if inputs.len() > 0 {
        law_run_ends_well_or_with_protocol_reject(
            run.step(config, inputs[0]).run,
            config,
            inputs.drop_first(),
        );
    }
}

/// A run whose peer does not violate the protocol ends well once it is cancelled or its
/// stream or its commands end, however often the reactor's queue is full, and does not end
/// before.
pub proof fn law_run_without_violations_ends_well<H, B>(
    run: RunView,
    config: ZakuraHeaderSyncConfig,
    inputs: Seq<RunInput<H, B>>,
)
    requires
        run.phase is Waiting,
        violation_free(run, config, inputs),
    ensures
        run_end(run, config, inputs) == (if exists|i: int|
            0 <= i < inputs.len() && (#[trigger] inputs[i]).event is Closed {
            Some(Ok::<(), SinkReject>(()))
        } else {
            None
        }),
{
    lemma_sound_run_ends_well(run, config, inputs);
}

/// A run goes on, and is not about to reject its peer.
spec fn sound(run: RunView) -> bool {
    match run.phase {
        RunPhase::Ended => false,
        RunPhase::Delivering { verdict, .. } => !(verdict is Reject),
        _ => true,
    }
}

/// A sound run without violations ends well exactly when it is closed.
proof fn lemma_sound_run_ends_well<H, B>(
    run: RunView,
    config: ZakuraHeaderSyncConfig,
    inputs: Seq<RunInput<H, B>>,
)
    requires
        sound(run),
        violation_free(run, config, inputs),
    ensures
        run_end(run, config, inputs) == (if exists|i: int|
            0 <= i < inputs.len() && (#[trigger] inputs[i]).event is Closed {
            Some(Ok::<(), SinkReject>(()))
        } else {
            None
        }),
    decreases inputs.len(),
{
    if inputs.len() > 0 {
        let step = run.step(config, inputs[0]);
        let rest = inputs.drop_first();
        if inputs[0].event is Closed {
            assert(step.end == Some(Ok::<(), SinkReject>(())));
        } else {
            assert(step.end is None);
            assert(sound(step.run));
            lemma_sound_run_ends_well(step.run, config, rest);
            if exists|i: int| 0 <= i < inputs.len() && (#[trigger] inputs[i]).event is Closed {
                let i = choose|i: int|
                    0 <= i < inputs.len() && (#[trigger] inputs[i]).event is Closed;
                assert(rest[i - 1] == inputs[i]);
            }
            if exists|i: int| 0 <= i < rest.len() && (#[trigger] rest[i]).event is Closed {
                let i = choose|i: int| 0 <= i < rest.len() && (#[trigger] rest[i]).event is Closed;
                assert(inputs[i + 1] == rest[i]);
            }
        }
    }
}

/// An input that ends a run leaves it without a range, and gives back the one it held.
proof fn lemma_end_gives_back<H, B>(
    run: RunView,
    config: ZakuraHeaderSyncConfig,
    input: RunInput<H, B>,
)
    ensures
        run.step(config, input).end is Some ==> {
            &&& run.step(config, input).run.held() is None
            &&& run.held() matches Some(range) ==> run.step(config, input).schedule
                == input.schedule.returned(
                run.peer,
                run.generation,
                range,
                ReturnReason::Teardown,
            )
        },
{
    match (run.phase, input.event) {
        (RunPhase::Waiting, RunEvent::Frame { guarded, kind }) => {
            assert(run.local.correlated(kind, input.now).in_flight == run.local.in_flight);
        },
        (RunPhase::Delivering { expected, verdict }, RunEvent::Delivered(delivered)) => {
            assert(run.local.settled(expected, verdict, delivered).in_flight
                == run.local.in_flight);
        },
        _ => {},
    }
}

/// Whenever and however a run ends, the range that it held is back in the shared queue,
/// unless it is covered or another session of the peer has it.
pub proof fn law_run_never_strands<H, B>(
    run: RunView,
    config: ZakuraHeaderSyncConfig,
    inputs: Seq<RunInput<H, B>>,
)
    ensures
        gives_back(run, config, inputs),
    decreases inputs.len(),
{
    if inputs.len() > 0 {
        let input = inputs[0];
        let step = run.step(config, input);
        law_run_never_strands(step.run, config, inputs.drop_first());
        assert(step.end is Some ==> {
            &&& step.run.held() is None
            &&& run.held() matches Some(range) ==> is_back(
                step.schedule,
                run.peer,
                run.generation,
                range,
            )
        }) by {
            lemma_end_gives_back(run, config, input);
            if run.held() is Some {
                routine::law_teardown_never_strands(
                    input.schedule,
                    run.peer,
                    run.generation,
                    run.held()->0,
                );
            }
        }
    }
}

/// Whether a range is the one that an expectation is for.
pub open spec fn is_for(expected: ExpectedHeadersResponse, range: RangeRequest) -> bool {
    expected.start_height == range.start_height && expected.count == range.count
}

/// Whether the slot of a run is taken exactly while a request is outstanding: between two
/// inputs a range is in flight where its response, and no other, is expected.
pub open spec fn slot_matches_request(run: RunView) -> bool {
    let local = run.local;
    let idle = local.outcome is None && match local.in_flight {
        Some(range) => local.expected.len() == 1 && is_for(local.expected[0], range),
        None => local.expected.len() == 0,
    };
    match run.phase {
        RunPhase::Waiting => idle,
        RunPhase::Decoding(None) => idle,
        RunPhase::Delivering { expected: None, .. } => idle,
        RunPhase::Decoding(Some(expected)) => {
            &&& local.outcome is None
            &&& local.expected.len() == 0
            &&& local.in_flight matches Some(range) && is_for(expected, range)
        },
        RunPhase::Delivering { expected: Some(expected), verdict } => {
            &&& local.outcome is Some || verdict is Reject
            &&& local.expected.len() == 0
            &&& local.in_flight matches Some(range) && is_for(expected, range)
        },
        RunPhase::Sending(work) => idle && local.in_flight is None && work.count
            == work.range.count,
        RunPhase::Ended => local.in_flight is None,
    }
}

/// Whether a decoded message is a response exactly when its frame was taken for one.
pub open spec fn decodes_as_told<H, B>(run: RunView, event: RunEvent<H, B>) -> bool {
    match (run.phase, event) {
        (RunPhase::Decoding(expected), RunEvent::Decoded(Ok(message))) => message is Headers <==> expected is Some,
        _ => true,
    }
}

/// A pull keeps the slot in order.
proof fn lemma_pull_keeps_slot(
    run: RunView,
    schedule: SchedulerView,
    config: ZakuraHeaderSyncConfig,
    now: Timestamp,
)
    requires
        slot_matches_request(run.in_phase(RunPhase::Waiting)),
    ensures
        slot_matches_request(run.pulled(schedule, config, now).run),
{
}

/// A frame that is concluded keeps the slot in order: an outcome that was recorded frees
/// it.
proof fn lemma_conclusion_keeps_slot(
    run: RunView,
    schedule: SchedulerView,
    config: ZakuraHeaderSyncConfig,
    ingest: Ingest,
    now: Timestamp,
)
    requires
        slot_matches_request(run.in_phase(RunPhase::Waiting)) || (run.local.outcome is Some
            && run.local.in_flight is Some && run.local.expected.len() == 0),
    ensures
        slot_matches_request(run.concluded(schedule, config, ingest, now).run),
{
    if !(ingest is Reject) {
        let rest = routine::rest_end(now, config.empty_headers_retry_delay);
        let applied = run.with_local(run.local.outcome_applied(rest)).in_phase(RunPhase::Waiting);
        match run.local.outcome {
            Some(HeadersOutcome::Filled) => assert(run.local.completes() || run.local.in_flight is None),
            Some(HeadersOutcome::Empty) => assert(run.local.given_back() == run.local.in_flight),
            None => {},
        }
        assert(slot_matches_request(applied));
        let after = routine::after_given_back(
            schedule,
            run.peer,
            run.generation,
            run.local.given_back(),
        );
        lemma_pull_keeps_slot(applied, after, config, now);
    }
}

/// The slot is taken exactly while a request is outstanding, whatever happens: it holds of
/// a run that has neither, and every input keeps it, where responses decode as responses
/// and nothing else does.
pub proof fn law_slot_is_taken_while_a_request_is_outstanding<H, B>(
    run: RunView,
    config: ZakuraHeaderSyncConfig,
    input: RunInput<H, B>,
)
    requires
        slot_matches_request(run),
        decodes_as_told(run, input.event),
    ensures
        slot_matches_request(run.step(config, input).run),
{
    let now = input.now;
    let schedule = input.schedule;
    match (run.phase, input.event) {
        (RunPhase::Waiting, RunEvent::Frame { guarded, kind }) => {
            let taken = run.with_local(run.local.correlated(kind, now));
            match guarded {
                Admit::Throttle => {
                    lemma_conclusion_keeps_slot(run, schedule, config, Ingest::Done, now);
                },
                Admit::Reject(reason) => {
                    let reject = SinkReject::Protocol(RejectCause::Guard(reason));
                    lemma_conclusion_keeps_slot(run, schedule, config, Ingest::Reject(reject), now);
                },
                Admit::Pass => {
                    if run.local.correlation(kind, now) is Throttled || run.local.correlation(
                        kind,
                        now,
                    ) is LateCovered {
                        lemma_conclusion_keeps_slot(taken, schedule, config, Ingest::Done, now);
                    }
                },
            }
        },
        (RunPhase::Waiting, RunEvent::Command(command)) => {
            lemma_pull_keeps_slot(run, schedule, config, now);
            match command {
                HeaderSyncPeerCommand::DropExpectation { start_height, count, .. } => {
                    lemma_pull_keeps_slot(
                        run.with_local(run.local.dropped(start_height, count)),
                        schedule,
                        config,
                        now,
                    );
                },
                _ => {},
            }
        },
        (RunPhase::Waiting, RunEvent::Woken) => {
            lemma_pull_keeps_slot(run, schedule, config, now);
        },
        (RunPhase::Delivering { expected, verdict }, RunEvent::Delivered(delivered)) => {
            let ingest = ingest::without_local_reject(ingest::ingest_of(verdict, delivered));
            if !(ingest is Reject) {
                lemma_conclusion_keeps_slot(
                    run.with_local(run.local.settled(expected, verdict, delivered)),
                    schedule,
                    config,
                    ingest,
                    now,
                );
            }
        },
        _ => {},
    }
}

} // verus!
