//! The whole run of a peer's routine, from its first pull to its end.
//!
//! A run takes one event at a time and says what to do about it. Whoever drives it reads,
//! decodes, delivers and writes, and hands the outcome back as the next event. Other
//! routines work on the shared queue in between, so each event comes with the queue as it
//! is found.

use crate::header_sync::config::ZakuraHeaderSyncConfig;
use crate::header_sync::events::{
    ExpectedHeadersResponse, HeaderSyncEvent, HeaderSyncMessage, HeaderSyncMisbehavior,
    HeaderSyncStatus, HeaderSyncWireError,
};
use crate::header_sync::ingest::{
    self, Admit, Emission, FrameStart, InboundKind, Ingest, PeerGate, RejectCause, SinkReject, Verdict,
};
use crate::header_sync::ranges::{RangePriority, RangeRequest};
use crate::header_sync::routine::{
    self, CommandAction, Correlation, FrameFollowUp, HeaderSyncPeerCommand, HeaderSyncPeerRoutine,
    HsLocalView,
};
use crate::header_sync::scheduler::{HeaderWork, RangeScheduler, ReturnReason, SchedulerView};
use crate::time::Timestamp;
use crate::types::Height;
use vstd::prelude::*;

verus! {

/// What a run waits for.
#[derive(Debug)]
pub enum RunPhase {
    /// Its next input.
    Waiting,
    /// A frame to be decoded; a response is held to the expectation.
    Decoding(Option<ExpectedHeadersResponse>),
    /// The event of a frame to be delivered.
    Delivering {
        /// What the frame was held to.
        expected: Option<ExpectedHeadersResponse>,
        /// What the delivery means.
        verdict: Verdict,
    },
    /// A request for this work to be written.
    Sending(HeaderWork),
    /// Nothing.
    Ended,
}

/// What happened to a run.
#[derive(Debug)]
pub enum RunEvent<H, B> {
    /// The run was cancelled, or its stream or its commands ended.
    Closed,
    /// A frame arrived.
    Frame {
        /// The stream guard's verdict on it.
        guarded: Admit,
        /// What the frame is before it is decoded.
        kind: InboundKind,
    },
    /// The frame was decoded, or not.
    Decoded(Result<HeaderSyncMessage<H, B>, HeaderSyncWireError>),
    /// The event was delivered, or not.
    Delivered(bool),
    /// The reactor sent a command.
    Command(HeaderSyncPeerCommand<H, B>),
    /// The reactor chose a status to advertise.
    Status(HeaderSyncStatus),
    /// There may be work.
    Woken,
    /// The request was written, or not.
    Sent(bool),
}

/// What to do about an event.
#[derive(Debug)]
pub enum RunAction<H, B> {
    /// Wait for the next input.
    Wait,
    /// Decode the frame; a response is held to the expectation.
    Decode(Option<ExpectedHeadersResponse>),
    /// Deliver the event to the reactor, and say whether it was.
    Deliver(HeaderSyncEvent<H, B>),
    /// Write a request, and say whether it was.
    Request {
        /// First requested height.
        start_height: Height,
        /// Requested header count.
        count: u32,
    },
    /// Deliver the event to the reactor if it can take it.
    Announce(HeaderSyncEvent<H, B>),
    /// Write a response to a request of the peer.
    SendHeaders {
        /// Headers in ascending height order.
        headers: Vec<H>,
        /// Advisory serialized body sizes, parallel to `headers`.
        body_sizes: Vec<u32>,
    },
    /// Write a new block.
    ForwardNewBlock(B),
    /// Write a status.
    SendStatus(HeaderSyncStatus),
    /// A range went back to the queue: wake those who wait for work.
    WakeOthers,
    /// The run has ended.
    Stop(Result<(), SinkReject>),
}

/// A run as a value.
#[verifier::ext_equal]
pub struct RunView {
    /// The peer.
    pub peer: Seq<u8>,
    /// The generation of its session.
    pub generation: u64,
    /// Its local state.
    pub local: HsLocalView,
    /// What the run waits for.
    pub phase: RunPhase,
}

/// What a step of a run leads to.
#[verifier::ext_equal]
pub struct RunStep {
    /// The run after it.
    pub run: RunView,
    /// The shared queue after it.
    pub schedule: SchedulerView,
    /// How the run ended, if the step ended it.
    pub end: Option<Result<(), SinkReject>>,
}

/// What the delivery of the event of a decoded `message` at `now` means.
pub open spec fn verdict_of<H, B>(
    gate: PeerGate,
    config: ZakuraHeaderSyncConfig,
    message: HeaderSyncMessage<H, B>,
    now: Timestamp,
) -> Verdict {
    let fault = match message {
        HeaderSyncMessage::Status(status) => gate.status_fault(status, now) is Some,
        HeaderSyncMessage::Headers { headers, body_sizes } => headers@.len() != body_sizes@.len(),
        HeaderSyncMessage::GetHeaders { count, .. } => gate.get_headers_fault(
            count,
            config.inbound_get_headers_count_limit,
        ) is Some,
        HeaderSyncMessage::NewBlock(_) => false,
    };
    if fault {
        Verdict::Record
    } else {
        Verdict::Forward
    }
}

/// Whether a request for `work` is within the caps.
pub open spec fn in_bounds(work: HeaderWork, config: ZakuraHeaderSyncConfig) -> bool {
    1 <= work.count <= config.request_limits.hard_max
}

impl RunView {
    /// The run in another phase.
    pub open spec fn in_phase(self, phase: RunPhase) -> RunView {
        RunView { phase, ..self }
    }

    /// The run with other local state.
    pub open spec fn with_local(self, local: HsLocalView) -> RunView {
        RunView { local, ..self }
    }

    /// The range that the run has taken and not given back.
    pub open spec fn held(self) -> Option<RangeRequest> {
        match self.phase {
            RunPhase::Sending(work) => Some(work.range),
            _ => self.local.in_flight,
        }
    }

    /// The step goes on from here.
    pub open spec fn going(self, schedule: SchedulerView) -> RunStep {
        RunStep { run: self, schedule, end: None }
    }

    /// The run ends, and gives back the range that it holds.
    pub open spec fn stopped(self, schedule: SchedulerView, end: Result<(), SinkReject>) -> RunStep {
        RunStep {
            run: RunView {
                local: HsLocalView { in_flight: None, ..self.local },
                phase: RunPhase::Ended,
                ..self
            },
            schedule: match self.held() {
                Some(range) => schedule.returned(
                    self.peer,
                    self.generation,
                    range,
                    ReturnReason::Teardown,
                ),
                None => schedule,
            },
            end: Some(end),
        }
    }

    /// The run tries to pull work.
    pub open spec fn pulled(
        self,
        schedule: SchedulerView,
        config: ZakuraHeaderSyncConfig,
        now: Timestamp,
    ) -> RunStep {
        let rested = self.with_local(self.local.rested(now));
        if rested.local.may_pull() {
            let (work, after) = schedule.taken(
                self.peer,
                self.generation,
                rested.local.pull_caps(),
                config.request_limits,
            );
            match work {
                Some(work) => rested.in_phase(RunPhase::Sending(work)).going(after),
                None => rested.in_phase(RunPhase::Waiting).going(after),
            }
        } else {
            rested.in_phase(RunPhase::Waiting).going(schedule)
        }
    }

    /// The run concludes a frame.
    pub open spec fn concluded(
        self,
        schedule: SchedulerView,
        config: ZakuraHeaderSyncConfig,
        ingest: Ingest,
        now: Timestamp,
    ) -> RunStep {
        match ingest {
            Ingest::Reject(reject) => self.stopped(schedule, Err(reject)),
            _ => {
                let applied = self.with_local(
                    self.local.outcome_applied(
                        routine::rest_end(now, config.empty_headers_retry_delay),
                    ),
                ).in_phase(RunPhase::Waiting);
                let after = routine::after_given_back(
                    schedule,
                    self.peer,
                    self.generation,
                    self.local.given_back(),
                );
                if self.local.completes() {
                    applied.pulled(after, config, now)
                } else {
                    applied.going(after)
                }
            },
        }
    }

    /// The run takes a frame in.
    pub open spec fn frame_taken(
        self,
        schedule: SchedulerView,
        config: ZakuraHeaderSyncConfig,
        guarded: Admit,
        kind: InboundKind,
        now: Timestamp,
    ) -> RunStep {
        match guarded {
            Admit::Throttle => self.concluded(schedule, config, Ingest::Done, now),
            Admit::Reject(reason) => self.concluded(
                schedule,
                config,
                Ingest::Reject(SinkReject::Protocol(RejectCause::Guard(reason))),
                now,
            ),
            Admit::Pass => {
                let taken = self.with_local(self.local.correlated(kind, now));
                match self.local.correlation(kind, now) {
                    Correlation::Throttled | Correlation::LateCovered => taken.concluded(
                        schedule,
                        config,
                        Ingest::Done,
                        now,
                    ),
                    Correlation::Unsolicited => taken.in_phase(
                        RunPhase::Delivering {
                            expected: None,
                            verdict: Verdict::Reject(HeaderSyncWireError::UnsolicitedHeaders),
                        },
                    ).going(schedule),
                    Correlation::Decode(expected) => taken.in_phase(
                        RunPhase::Decoding(expected),
                    ).going(schedule),
                }
            },
        }
    }

    /// The run handles a command.
    pub open spec fn commanded<H, B>(
        self,
        schedule: SchedulerView,
        config: ZakuraHeaderSyncConfig,
        command: HeaderSyncPeerCommand<H, B>,
        now: Timestamp,
    ) -> RunStep {
        match command {
            HeaderSyncPeerCommand::Wake => self.pulled(schedule, config, now),
            HeaderSyncPeerCommand::DropExpectation { generation, start_height, count } => if generation
                == self.generation {
                self.with_local(self.local.dropped(start_height, count)).pulled(
                    schedule,
                    config,
                    now,
                )
            } else {
                self.going(schedule)
            },
            _ => self.going(schedule),
        }
    }

    /// What follows an event. One that the run does not wait for changes nothing.
    pub open spec fn next<H, B>(
        self,
        schedule: SchedulerView,
        config: ZakuraHeaderSyncConfig,
        event: RunEvent<H, B>,
        now: Timestamp,
    ) -> RunStep {
        match (self.phase, event) {
            (RunPhase::Ended, _) => self.going(schedule),
            (_, RunEvent::Closed) => self.stopped(schedule, Ok(())),
            (RunPhase::Waiting, RunEvent::Frame { guarded, kind }) => self.frame_taken(
                schedule,
                config,
                guarded,
                kind,
                now,
            ),
            (RunPhase::Waiting, RunEvent::Command(command)) => self.commanded(
                schedule,
                config,
                command,
                now,
            ),
            (RunPhase::Waiting, RunEvent::Woken) => self.pulled(schedule, config, now),
            (RunPhase::Decoding(expected), RunEvent::Decoded(Ok(message))) => self.with_local(
                self.local.after_message(config, message, now),
            ).in_phase(
                RunPhase::Delivering {
                    expected,
                    verdict: verdict_of(self.local.gate, config, message, now),
                },
            ).going(schedule),
            (RunPhase::Decoding(expected), RunEvent::Decoded(Err(error))) => self.in_phase(
                RunPhase::Delivering { expected, verdict: Verdict::Reject(error) },
            ).going(schedule),
            (RunPhase::Delivering { expected, verdict }, RunEvent::Delivered(delivered)) => {
                self.with_local(self.local.settled(expected, verdict, delivered)).concluded(
                    schedule,
                    config,
                    ingest::without_local_reject(ingest::ingest_of(verdict, delivered)),
                    now,
                )
            },
            (RunPhase::Sending(work), RunEvent::Sent(sent)) => if sent && in_bounds(work, config) {
                self.with_local(self.local.requested(work)).in_phase(RunPhase::Waiting).going(
                    schedule,
                )
            } else {
                self.in_phase(RunPhase::Waiting).going(
                    schedule.returned(
                        self.peer,
                        self.generation,
                        work.range,
                        ReturnReason::SendFailed,
                    ),
                )
            },
            _ => self.going(schedule),
        }
    }
}

/// What to do about a step that leads to no event of its own: write the request that it
/// pulled work for, tell others of a range that it gave back, or wait.
pub open spec fn plain_action<H, B>(run: RunView, gave_back: bool) -> RunAction<H, B> {
    match run.phase {
        RunPhase::Sending(work) => RunAction::Request {
            start_height: work.range.start_height,
            count: work.count,
        },
        _ => if gave_back {
            RunAction::WakeOthers
        } else {
            RunAction::Wait
        },
    }
}

/// Whether an event reports `reason` of `peer`.
pub open spec fn reports<H, B>(
    event: HeaderSyncEvent<H, B>,
    peer: Seq<u8>,
    reason: HeaderSyncMisbehavior,
) -> bool {
    event matches HeaderSyncEvent::PeerMisbehavior { peer: p, reason: r } && p@ == peer && r
        == reason
}

/// Whether an event tells the reactor that a session requested `work`.
pub open spec fn assigns<H, B>(
    event: HeaderSyncEvent<H, B>,
    peer: Seq<u8>,
    generation: u64,
    work: HeaderWork,
) -> bool {
    event matches HeaderSyncEvent::PeerWorkAssigned {
        peer: p,
        generation: g,
        start_height,
        count,
        anchor_hash,
        finalized,
        forward,
    } && p@ == peer && g == generation && start_height == work.range.start_height && count
        == work.count && anchor_hash == work.range.link_hash && finalized == work.range.finalized
        && forward == (work.range.priority == RangePriority::Forward)
}

/// Whether `action` is what `event` calls for in `run`, where it leads to `step`.
pub open spec fn action_for<H, B>(
    run: RunView,
    config: ZakuraHeaderSyncConfig,
    event: RunEvent<H, B>,
    now: Timestamp,
    step: RunStep,
    action: RunAction<H, B>,
) -> bool {
    match step.end {
        Some(end) => action == RunAction::<H, B>::Stop(end),
        None => match (run.phase, event) {
            (RunPhase::Waiting, RunEvent::Frame { .. }) => match step.run.phase {
                RunPhase::Decoding(expected) => action == RunAction::<H, B>::Decode(expected),
                RunPhase::Delivering { .. } => action matches RunAction::Deliver(told) && reports(
                    told,
                    run.peer,
                    HeaderSyncMisbehavior::UnsolicitedHeaders,
                ),
                _ => action == plain_action::<H, B>(step.run, run.local.given_back() is Some),
            },
            (RunPhase::Waiting, RunEvent::Command(command)) => match command {
                HeaderSyncPeerCommand::SendHeaders { headers, body_sizes } => action == (RunAction::<
                    H,
                    B,
                >::SendHeaders { headers, body_sizes }),
                HeaderSyncPeerCommand::ForwardNewBlock(block) => action == RunAction::<
                    H,
                    B,
                >::ForwardNewBlock(block),
                _ => action == plain_action::<H, B>(step.run, false),
            },
            (RunPhase::Waiting, RunEvent::Status(status)) => action == RunAction::<
                H,
                B,
            >::SendStatus(status),
            (RunPhase::Waiting, RunEvent::Woken) => action == plain_action::<H, B>(step.run, false),
            (RunPhase::Decoding(_), RunEvent::Decoded(Ok(message))) => {
                &&& action matches RunAction::Deliver(told)
                &&& ingest::emission_for(
                    run.local.gate,
                    config,
                    run.peer,
                    message,
                    now,
                    Emission {
                        event: told,
                        verdict: verdict_of(run.local.gate, config, message, now),
                    },
                )
            },
            (RunPhase::Decoding(_), RunEvent::Decoded(Err(_))) => {
                action matches RunAction::Deliver(told) && reports(
                    told,
                    run.peer,
                    HeaderSyncMisbehavior::MalformedMessage,
                )
            },
            (RunPhase::Delivering { expected, verdict }, RunEvent::Delivered(delivered)) => action
                == plain_action::<H, B>(
                step.run,
                run.local.settled(expected, verdict, delivered).given_back() is Some,
            ),
            (RunPhase::Sending(work), RunEvent::Sent(sent)) => if sent && in_bounds(work, config) {
                action matches RunAction::Announce(told) && assigns(
                    told,
                    run.peer,
                    run.generation,
                    work,
                )
            } else {
                action == RunAction::<H, B>::WakeOthers
            },
            _ => action == RunAction::<H, B>::Wait,
        },
    }
}

/// The run of one peer's routine.
#[derive(Debug)]
pub struct RoutineRun {
    /// The routine.
    pub routine: HeaderSyncPeerRoutine,
    /// What the run waits for.
    pub phase: RunPhase,
}

impl View for RoutineRun {
    type V = RunView;

    open spec fn view(&self) -> RunView {
        RunView {
            peer: self.routine.peer_id@,
            generation: self.routine.generation,
            local: self.routine.local@,
            phase: self.phase,
        }
    }
}

impl RoutineRun {
    /// The routine is well formed, and so is work that is about to be requested, which is
    /// the only range that is held.
    pub open spec fn wf(&self) -> bool {
        &&& self.routine.local.wf()
        &&& self.phase matches RunPhase::Sending(work) ==> work.range.wf()
            && self.routine.local.in_flight is None
    }

    /// A run that waits for its first input.
    pub fn new(routine: HeaderSyncPeerRoutine) -> (run: Self)
        requires
            routine.local.wf(),
        ensures
            run.wf(),
            run.routine == routine,
            run.phase == RunPhase::Waiting,
    {
        RoutineRun { routine, phase: RunPhase::Waiting }
    }

    /// Ends the run, and gives back the range that it holds.
    fn stop<H, B>(&mut self, schedule: &mut RangeScheduler, end: Result<(), SinkReject>) -> (action:
        RunAction<H, B>)
        requires
            old(self).wf(),
            old(schedule).wf(),
        ensures
            final(self).wf(),
            final(schedule).wf(),
            (RunStep { run: final(self)@, schedule: final(schedule)@, end: Some(end) }) == old(
                self,
            )@.stopped(old(schedule)@, end),
            action == RunAction::<H, B>::Stop(end),
    {
        match &self.phase {
            RunPhase::Sending(work) => {
                schedule.return_work(
                    &self.routine.peer_id,
                    self.routine.generation,
                    work.range,
                    ReturnReason::Teardown,
                );
            },
            _ => {
                self.routine.teardown(schedule);
            },
        }
        self.phase = RunPhase::Ended;
        RunAction::Stop(end)
    }

    /// Tries to pull work.
    fn pull<H, B>(
        &mut self,
        schedule: &mut RangeScheduler,
        config: &ZakuraHeaderSyncConfig,
        now: Timestamp,
    ) -> (action: RunAction<H, B>)
        requires
            old(self).wf(),
            old(schedule).wf(),
            config.wf(),
        ensures
            final(self).wf(),
            final(schedule).wf(),
            (RunStep { run: final(self)@, schedule: final(schedule)@, end: None }) == old(
                self,
            )@.pulled(old(schedule)@, *config, now),
            action == plain_action::<H, B>(final(self)@, false),
    {
        match self.routine.begin_pull(schedule, config, now) {
            Some(work) => {
                self.phase = RunPhase::Sending(work);
                RunAction::Request { start_height: work.range.start_height, count: work.count }
            },
            None => {
                self.phase = RunPhase::Waiting;
                RunAction::Wait
            },
        }
    }

    /// Concludes a frame.
    fn conclude<H, B>(
        &mut self,
        schedule: &mut RangeScheduler,
        config: &ZakuraHeaderSyncConfig,
        ingest: Ingest,
        now: Timestamp,
    ) -> (action: RunAction<H, B>)
        requires
            old(self).wf(),
            old(self).phase is Waiting,
            old(schedule).wf(),
            config.wf(),
            now.nanos + config.empty_headers_retry_delay.nanos <= u128::MAX,
        ensures
            final(self).wf(),
            final(schedule).wf(),
            ({
                let step = old(self)@.concluded(old(schedule)@, *config, ingest, now);
                &&& step.run == final(self)@
                &&& step.schedule == final(schedule)@
                &&& step.end == (match ingest {
                    Ingest::Reject(reject) => Some(Err::<(), SinkReject>(reject)),
                    _ => None,
                })
                &&& action == (match step.end {
                    Some(end) => RunAction::<H, B>::Stop(end),
                    None => plain_action::<H, B>(
                        final(self)@,
                        old(self)@.local.given_back() is Some,
                    ),
                })
            }),
    {
        match self.routine.after_frame(ingest, schedule, config, now) {
            FrameFollowUp::Stop(reject) => self.stop(schedule, Err(reject)),
            FrameFollowUp::Pull => self.pull(schedule, config, now),
            FrameFollowUp::WakeOthers => RunAction::WakeOthers,
            FrameFollowUp::Wait => RunAction::Wait,
        }
    }

    /// Says what to do about an event. One that the run does not wait for is ignored, and
    /// nothing follows the end.
    pub fn on_event<H, B>(
        &mut self,
        schedule: &mut RangeScheduler,
        config: &ZakuraHeaderSyncConfig,
        event: RunEvent<H, B>,
        now: Timestamp,
    ) -> (action: RunAction<H, B>)
        requires
            old(self).wf(),
            old(schedule).wf(),
            config.wf(),
            old(self).routine.local.gate.in_range(now),
            now.nanos + config.empty_headers_retry_delay.nanos <= u128::MAX,
        ensures
            final(self).wf(),
            final(schedule).wf(),
            ({
                let step = old(self)@.next(old(schedule)@, *config, event, now);
                &&& step.run == final(self)@
                &&& step.schedule == final(schedule)@
                &&& action_for(old(self)@, *config, event, now, step, action)
            }),
    {
        let mut phase = RunPhase::Waiting;
        std::mem::swap(&mut self.phase, &mut phase);
        match phase {
            RunPhase::Ended => {
                self.phase = RunPhase::Ended;
                RunAction::Wait
            },
            RunPhase::Waiting => self.on_input(schedule, config, event, now),
            RunPhase::Decoding(expected) => match event {
                RunEvent::Closed => self.stop(schedule, Ok(())),
                RunEvent::Decoded(decoded) => {
                    let emission = self.routine.local.ingest_decoded(
                        config,
                        &self.routine.peer_id,
                        decoded,
                        now,
                    );
                    self.phase = RunPhase::Delivering { expected, verdict: emission.verdict };
                    RunAction::Deliver(emission.event)
                },
                _ => {
                    self.phase = RunPhase::Decoding(expected);
                    RunAction::Wait
                },
            },
            RunPhase::Delivering { expected, verdict } => match event {
                RunEvent::Closed => self.stop(schedule, Ok(())),
                RunEvent::Delivered(delivered) => {
                    let ingest = self.routine.finish_frame(expected, verdict, delivered);
                    self.conclude(schedule, config, ingest, now)
                },
                _ => {
                    self.phase = RunPhase::Delivering { expected, verdict };
                    RunAction::Wait
                },
            },
            RunPhase::Sending(work) => match event {
                RunEvent::Closed => {
                    self.phase = RunPhase::Sending(work);
                    self.stop(schedule, Ok(()))
                },
                RunEvent::Sent(sent) => match self.routine.finish_pull(
                    schedule,
                    config,
                    work,
                    sent,
                ) {
                    Some(told) => RunAction::Announce(told),
                    None => RunAction::WakeOthers,
                },
                _ => {
                    self.phase = RunPhase::Sending(work);
                    RunAction::Wait
                },
            },
        }
    }

    /// Says what to do about an event that comes while nothing else is awaited.
    fn on_input<H, B>(
        &mut self,
        schedule: &mut RangeScheduler,
        config: &ZakuraHeaderSyncConfig,
        event: RunEvent<H, B>,
        now: Timestamp,
    ) -> (action: RunAction<H, B>)
        requires
            old(self).wf(),
            old(self).phase is Waiting,
            old(schedule).wf(),
            config.wf(),
            old(self).routine.local.gate.in_range(now),
            now.nanos + config.empty_headers_retry_delay.nanos <= u128::MAX,
        ensures
            final(self).wf(),
            final(schedule).wf(),
            ({
                let step = old(self)@.next(old(schedule)@, *config, event, now);
                &&& step.run == final(self)@
                &&& step.schedule == final(schedule)@
                &&& action_for(old(self)@, *config, event, now, step, action)
            }),
    {
        match event {
            RunEvent::Closed => self.stop(schedule, Ok(())),
            RunEvent::Frame { guarded, kind } => match self.routine.begin_frame(
                guarded,
                kind,
                now,
            ) {
                FrameStart::Finished(ingest) => self.conclude(schedule, config, ingest, now),
                FrameStart::Report(emission) => {
                    self.phase = RunPhase::Delivering {
                        expected: None,
                        verdict: emission.verdict,
                    };
                    RunAction::Deliver(emission.event)
                },
                FrameStart::Decode(expected) => {
                    self.phase = RunPhase::Decoding(expected);
                    RunAction::Decode(expected)
                },
            },
            RunEvent::Command(command) => match self.routine.handle_command(command) {
                CommandAction::SendHeaders { headers, body_sizes } => RunAction::SendHeaders {
                    headers,
                    body_sizes,
                },
                CommandAction::ForwardNewBlock(block) => RunAction::ForwardNewBlock(block),
                CommandAction::Pull => self.pull(schedule, config, now),
                CommandAction::Idle => RunAction::Wait,
            },
            RunEvent::Status(status) => RunAction::SendStatus(status),
            RunEvent::Woken => self.pull(schedule, config, now),
            RunEvent::Decoded(_) | RunEvent::Delivered(_) | RunEvent::Sent(_) => RunAction::Wait,
        }
    }
}

} // verus!
