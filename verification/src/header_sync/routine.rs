//! The per-peer header-sync routine: it pulls its own work, correlates responses with
//! requests, and validates what the peer sends.
//!
//! The routine is driven from outside: its owner decodes frames, delivers events and
//! writes requests, and hands the outcome of each step back.

use std::collections::VecDeque;

use crate::header_sync::config::ZakuraHeaderSyncConfig;
use crate::header_sync::events::{
    ExpectedHeadersResponse, HeaderSyncEvent, HeaderSyncMessage, HeaderSyncMisbehavior,
    HeaderSyncWireError,
};
use crate::header_sync::ingest::{
    self, ingest_message, reject_misbehavior, run_inbound, settle, Admit, Emission, FrameStart,
    InboundKind, Ingest, PeerGate, RejectCause, SinkReject, Verdict,
};
use crate::header_sync::ranges::{RangePriority, RangeRequest};
use crate::header_sync::scheduler::{
    HeaderWork, PeerPullCaps, RangeScheduler, ReturnReason, SchedulerView,
};
use crate::header_sync::scheduler_laws;
use crate::time::{Duration, Timestamp};
use crate::types::{Height, ZakuraPeerId};
use crate::vec_map::MapKey;
use vstd::prelude::*;

verus! {

/// What the most recently decoded response means for the request slot.
#[derive(Copy, Clone, Debug, PartialEq, Eq, Structural)]
pub enum HeadersOutcome {
    /// Headers arrived: the request is complete.
    Filled,
    /// No headers arrived: the range goes back, and the slot rests for a while.
    Empty,
}

/// The local state of one peer's routine.
#[derive(Debug)]
pub struct HsLocal {
    /// Expected responses, oldest first.
    pub expected_headers: VecDeque<ExpectedHeadersResponse>,
    /// What the peer advertised, and its rate gates.
    pub gate: PeerGate,
    /// The peer's clamped per-response cap, once it sent a valid status.
    pub advertised_max_headers_per_response: Option<u32>,
    /// The range whose response is awaited.
    pub in_flight: Option<RangeRequest>,
    /// While set, no work is pulled before this instant.
    pub empty_retry_until: Option<Timestamp>,
    /// The outcome of the most recently decoded response, until it was acted on.
    pub last_headers_outcome: Option<HeadersOutcome>,
    /// How many late responses for dropped expectations are absorbed.
    pub late_covered_tolerance: usize,
}

/// The local state with the expectations as a sequence.
#[verifier::ext_equal]
pub struct HsLocalView {
    /// Expected responses, oldest first.
    pub expected: Seq<ExpectedHeadersResponse>,
    /// What the peer advertised, and its rate gates.
    pub gate: PeerGate,
    /// The peer's clamped per-response cap.
    pub advertised_max: Option<u32>,
    /// The range whose response is awaited.
    pub in_flight: Option<RangeRequest>,
    /// While set, no work is pulled before this instant.
    pub empty_retry_until: Option<Timestamp>,
    /// The outcome of the most recently decoded response.
    pub outcome: Option<HeadersOutcome>,
    /// How many late responses are absorbed.
    pub tolerance: usize,
}

impl View for HsLocal {
    type V = HsLocalView;

    open spec fn view(&self) -> HsLocalView {
        HsLocalView {
            expected: self.expected_headers@,
            gate: self.gate,
            advertised_max: self.advertised_max_headers_per_response,
            in_flight: self.in_flight,
            empty_retry_until: self.empty_retry_until,
            outcome: self.last_headers_outcome,
            tolerance: self.late_covered_tolerance,
        }
    }
}

/// What is known of a frame before it is decoded.
#[derive(Copy, Clone, Debug, PartialEq, Eq, Structural)]
pub enum Correlation {
    /// A new block too soon after the last one: dropped without decoding.
    Throttled,
    /// A late response for a range that was dropped: absorbed.
    LateCovered,
    /// A response that nothing asked for.
    Unsolicited,
    /// Decode the frame; a response is held to the expectation.
    Decode(Option<ExpectedHeadersResponse>),
}

/// The outcome that a decoded message leaves behind, if it is a response.
pub open spec fn outcome_of<H, B>(message: HeaderSyncMessage<H, B>) -> Option<HeadersOutcome> {
    match message {
        HeaderSyncMessage::Headers { headers, body_sizes } => if headers@.len() == 0
            && body_sizes@.len() == 0 {
            Some(HeadersOutcome::Empty)
        } else {
            Some(HeadersOutcome::Filled)
        },
        _ => None,
    }
}

impl HsLocalView {
    /// What a frame of `kind` at `now` is.
    pub open spec fn correlation(self, kind: InboundKind, now: Timestamp) -> Correlation {
        match kind {
            InboundKind::NewBlock => if self.gate.new_block_meter.admits(now) {
                Correlation::Decode(None)
            } else {
                Correlation::Throttled
            },
            InboundKind::Headers => if self.expected.len() > 0 {
                Correlation::Decode(Some(self.expected[0]))
            } else if self.tolerance > 0 {
                Correlation::LateCovered
            } else {
                Correlation::Unsolicited
            },
            InboundKind::Control => Correlation::Decode(None),
        }
    }

    /// The state after a frame of `kind` was correlated at `now`.
    pub open spec fn correlated(self, kind: InboundKind, now: Timestamp) -> HsLocalView {
        match kind {
            InboundKind::NewBlock => HsLocalView {
                gate: PeerGate {
                    new_block_meter: self.gate.new_block_meter.after_offered(now),
                    ..self.gate
                },
                ..self
            },
            InboundKind::Headers => if self.expected.len() > 0 {
                HsLocalView { expected: self.expected.drop_first(), ..self }
            } else if self.tolerance > 0 {
                HsLocalView { tolerance: (self.tolerance - 1) as usize, ..self }
            } else {
                self
            },
            InboundKind::Control => self,
        }
    }

    /// The state after a decoded `message` at `now`.
    pub open spec fn after_message<H, B>(
        self,
        config: ZakuraHeaderSyncConfig,
        message: HeaderSyncMessage<H, B>,
        now: Timestamp,
    ) -> HsLocalView {
        match message {
            HeaderSyncMessage::Status(status) => match self.gate.status_fault(status, now) {
                Some(_) => self,
                None => HsLocalView {
                    gate: self.gate.after_status(status, now),
                    advertised_max: Some(
                        ingest::clamped_status(status, config).max_headers_per_response,
                    ),
                    ..self
                },
            },
            HeaderSyncMessage::Headers { .. } => HsLocalView {
                outcome: outcome_of(message),
                ..self
            },
            _ => self,
        }
    }

    /// The state after an event was delivered or not: a response that could not be
    /// handed on is expected again, and has no outcome.
    pub open spec fn settled(
        self,
        expected: Option<ExpectedHeadersResponse>,
        verdict: Verdict,
        delivered: bool,
    ) -> HsLocalView {
        match expected {
            Some(expected) => if verdict is Forward && !delivered {
                HsLocalView { expected: seq![expected] + self.expected, outcome: None, ..self }
            } else {
                self
            },
            None => self,
        }
    }

    /// Whether the oldest expectation is for `start` and `count`.
    pub open spec fn expects(self, start: Height, count: u32) -> bool {
        self.expected.len() > 0 && self.expected[0] == (ExpectedHeadersResponse {
            start_height: start,
            count,
        })
    }

    /// The state after the expectation for `start` and `count` was dropped, where it is the
    /// oldest one.
    pub open spec fn dropped(self, start: Height, count: u32) -> HsLocalView {
        if self.expects(start, count) {
            HsLocalView {
                expected: self.expected.drop_first(),
                tolerance: (if self.tolerance < usize::MAX {
                    self.tolerance + 1
                } else {
                    usize::MAX as int
                }) as usize,
                in_flight: None,
                empty_retry_until: None,
                ..self
            }
        } else {
            self
        }
    }

    /// The state with an expired resting period taken away.
    pub open spec fn rested(self, now: Timestamp) -> HsLocalView {
        match self.empty_retry_until {
            Some(until) => if now.nanos >= until.nanos {
                HsLocalView { empty_retry_until: None, ..self }
            } else {
                self
            },
            None => self,
        }
    }

    /// Whether work may be pulled: nothing is in flight, the peer's caps are known, and
    /// it is not resting.
    pub open spec fn may_pull(self) -> bool {
        self.in_flight is None && self.gate.received_status && self.empty_retry_until is None
            && self.advertised_max is Some
    }

    /// The caps under which work is pulled.
    pub open spec fn pull_caps(self) -> PeerPullCaps {
        PeerPullCaps {
            advertised_tip: self.gate.advertised_tip,
            max_headers_per_response: self.advertised_max->0,
        }
    }

    /// Whether the recorded outcome completes the request in flight.
    pub open spec fn completes(self) -> bool {
        self.outcome == Some(HeadersOutcome::Filled) && self.in_flight is Some
    }

    /// The range that the recorded outcome gives back to the queue.
    pub open spec fn given_back(self) -> Option<RangeRequest> {
        if self.outcome == Some(HeadersOutcome::Empty) {
            self.in_flight
        } else {
            None
        }
    }

    /// The state after the recorded outcome was acted on, where a peer that gave no
    /// headers rests until `rest_until`.
    pub open spec fn outcome_applied(self, rest_until: Timestamp) -> HsLocalView {
        if self.completes() {
            HsLocalView { outcome: None, in_flight: None, empty_retry_until: None, ..self }
        } else if self.given_back() is Some {
            HsLocalView {
                outcome: None,
                in_flight: None,
                empty_retry_until: Some(rest_until),
                ..self
            }
        } else {
            HsLocalView { outcome: None, ..self }
        }
    }

    /// The state after a request for `work` was sent.
    pub open spec fn requested(self, work: HeaderWork) -> HsLocalView {
        HsLocalView {
            expected: self.expected.push(
                ExpectedHeadersResponse {
                    start_height: work.range.start_height,
                    count: work.count,
                },
            ),
            in_flight: Some(work.range),
            ..self
        }
    }
}

impl HsLocal {
    /// The range in flight is well formed, and a known cap admits a header.
    pub open spec fn wf(&self) -> bool {
        &&& self.in_flight matches Some(range) ==> range.wf()
        &&& self.advertised_max_headers_per_response matches Some(max) ==> max >= 1
    }

    /// The state of a fresh session.
    pub fn new(
        anchor_height: Height,
        inbound_status_min_interval: Duration,
        new_block_min_interval: Duration,
        now: Timestamp,
    ) -> (local: Self)
        ensures
            local.wf(),
            local@.expected == Seq::<ExpectedHeadersResponse>::empty(),
            local@.gate.advertised_tip == anchor_height,
            !local@.gate.received_status,
            local@.gate.inbound_status_meter.interval == inbound_status_min_interval,
            local@.gate.inbound_status_meter.next_allowed == now,
            local@.gate.new_block_meter.interval == new_block_min_interval,
            local@.gate.new_block_meter.next_allowed == now,
            local@.advertised_max is None,
            local@.in_flight is None,
            local@.empty_retry_until is None,
            local@.outcome is None,
            local@.tolerance == 0,
    {
        HsLocal {
            expected_headers: VecDeque::new(),
            gate: PeerGate::new(
                anchor_height,
                inbound_status_min_interval,
                new_block_min_interval,
                now,
            ),
            advertised_max_headers_per_response: None,
            in_flight: None,
            empty_retry_until: None,
            last_headers_outcome: None,
            late_covered_tolerance: 0,
        }
    }

    /// Takes the oldest expectation.
    pub fn pop_expected_headers_response(&mut self) -> (expected: Option<ExpectedHeadersResponse>)
        ensures
            match expected {
                Some(expected) => old(self)@.expected.len() > 0 && expected == old(self)@.expected[0] && final(self)@ == (HsLocalView {
                    expected: old(self)@.expected.drop_first(),
                    ..old(self)@
                }),
                None => old(self)@.expected.len() == 0 && final(self)@ == old(self)@,
            },
    {
        let expected = self.expected_headers.pop_front();
        proof {
            if old(self)@.expected.len() > 0 {
                assert(self@.expected =~= old(self)@.expected.drop_first());
            }
        }
        expected
    }

    /// Spends one allowance for a late response, if there is one.
    pub fn take_late_covered_tolerance(&mut self) -> (taken: bool)
        ensures
            taken == (old(self)@.tolerance > 0),
            final(self)@ == (HsLocalView {
                tolerance: (if taken {
                    old(self)@.tolerance - 1
                } else {
                    0
                }) as usize,
                ..old(self)@
            }),
    {
        if self.late_covered_tolerance == 0 {
            return false;
        }
        self.late_covered_tolerance = self.late_covered_tolerance - 1;
        true
    }

    /// Puts an expectation back as the oldest one.
    pub fn restore_expected_headers(&mut self, expected: ExpectedHeadersResponse)
        ensures
            final(self)@ == (HsLocalView {
                expected: seq![expected] + old(self)@.expected,
                ..old(self)@
            }),
    {
        self.expected_headers.push_front(expected);
        assert(self@.expected =~= seq![expected] + old(self)@.expected);
    }

    /// Records an expectation as the newest one.
    pub fn record_expected(&mut self, expected: ExpectedHeadersResponse)
        ensures
            final(self)@ == (HsLocalView {
                expected: old(self)@.expected.push(expected),
                ..old(self)@
            }),
    {
        self.expected_headers.push_back(expected);
    }

    /// Drops the expectation for `start_height` and `count` after the reactor timed the
    /// request out or covered its range, and frees the slot. A response that still
    /// arrives is absorbed. Where the oldest expectation is another one, the request was
    /// answered meanwhile, and nothing changes.
    pub fn apply_drop_expectation(&mut self, start_height: Height, count: u32)
        ensures
            final(self)@ == old(self)@.dropped(start_height, count),
    {
        let matches_front = match self.expected_headers.len() {
            0 => false,
            _ => {
                let front = self.expected_headers[0];
                front.start_height == start_height && front.count == count
            },
        };
        if matches_front {
            self.expected_headers.pop_front();
            assert(self@.expected =~= old(self)@.expected.drop_first());
            self.late_covered_tolerance = self.late_covered_tolerance.saturating_add(1);
            self.in_flight = None;
            self.empty_retry_until = None;
        }
    }

    /// Gates and correlates a frame before it is decoded.
    pub fn correlate(&mut self, kind: InboundKind, now: Timestamp) -> (correlation: Correlation)
        requires
            old(self)@.gate.new_block_meter.in_range(now),
        ensures
            correlation == old(self)@.correlation(kind, now),
            final(self)@ == old(self)@.correlated(kind, now),
    {
        match kind {
            InboundKind::NewBlock => {
                if self.gate.admit_new_block(now) {
                    Correlation::Decode(None)
                } else {
                    Correlation::Throttled
                }
            },
            InboundKind::Headers => match self.pop_expected_headers_response() {
                Some(expected) => Correlation::Decode(Some(expected)),
                None => {
                    if self.take_late_covered_tolerance() {
                        Correlation::LateCovered
                    } else {
                        Correlation::Unsolicited
                    }
                },
            },
            InboundKind::Control => Correlation::Decode(None),
        }
    }

    /// The report of a response that nothing asked for.
    pub fn unsolicited<H, B>(&self, peer: &ZakuraPeerId) -> (emission: Emission<H, B>)
        ensures
            emission.reports(peer@, HeaderSyncMisbehavior::UnsolicitedHeaders),
            emission.verdict == Verdict::Reject(HeaderSyncWireError::UnsolicitedHeaders),
    {
        reject_misbehavior(
            peer,
            HeaderSyncMisbehavior::UnsolicitedHeaders,
            HeaderSyncWireError::UnsolicitedHeaders,
        )
    }

    /// Validates a decoded frame, or reports one that does not decode.
    pub fn ingest_decoded<H, B>(
        &mut self,
        config: &ZakuraHeaderSyncConfig,
        peer: &ZakuraPeerId,
        decoded: Result<HeaderSyncMessage<H, B>, HeaderSyncWireError>,
        now: Timestamp,
    ) -> (emission: Emission<H, B>)
        requires
            config.wf(),
            old(self)@.gate.inbound_status_meter.in_range(now),
        ensures
            old(self).wf() ==> final(self).wf(),
            match decoded {
                Ok(message) => ingest::emission_for(
                    old(self)@.gate,
                    *config,
                    peer@,
                    message,
                    now,
                    emission,
                ) && final(self)@ == old(self)@.after_message(*config, message, now),
                Err(error) => emission.reports(peer@, HeaderSyncMisbehavior::MalformedMessage)
                    && emission.verdict == Verdict::Reject(error) && final(self)@ == old(self)@,
            },
    {
        let message = match decoded {
            Ok(message) => message,
            Err(error) => {
                return reject_misbehavior(peer, HeaderSyncMisbehavior::MalformedMessage, error);
            },
        };
        match &message {
            HeaderSyncMessage::Headers { headers, body_sizes } => {
                if headers.len() == body_sizes.len() && headers.len() == 0 {
                    self.last_headers_outcome = Some(HeadersOutcome::Empty);
                } else {
                    self.last_headers_outcome = Some(HeadersOutcome::Filled);
                }
            },
            _ => {},
        }
        let emission = ingest_message(&mut self.gate, config, peer, message, now);
        match &emission.event {
            HeaderSyncEvent::PeerStatusUpdated { status, .. } => {
                self.advertised_max_headers_per_response = Some(status.max_headers_per_response);
            },
            _ => {},
        }
        emission
    }

    /// Concludes a frame once its event was delivered or not. A solicited response that
    /// could not be delivered is expected again and its outcome is forgotten, so that a
    /// full queue neither consumes it nor frees the slot.
    pub fn settle_delivery(
        &mut self,
        expected: Option<ExpectedHeadersResponse>,
        verdict: Verdict,
        delivered: bool,
    ) -> (ingest: Ingest)
        ensures
            ingest == ingest::ingest_of(verdict, delivered),
            final(self)@ == old(self)@.settled(expected, verdict, delivered),
    {
        let ingest = settle(verdict, delivered);
        match &ingest {
            Ingest::Reject(SinkReject::Local) => match expected {
                Some(expected) => {
                    self.restore_expected_headers(expected);
                    self.last_headers_outcome = None;
                },
                None => {},
            },
            _ => {},
        }
        ingest
    }
}

/// A command from the reactor to a routine.
#[derive(Debug)]
pub enum HeaderSyncPeerCommand<H, B> {
    /// Write a response to a request of the peer.
    SendHeaders {
        /// Headers in ascending height order.
        headers: Vec<H>,
        /// Advisory serialized body sizes, parallel to `headers`.
        body_sizes: Vec<u32>,
    },
    /// Write an accepted new block.
    ForwardNewBlock(B),
    /// Try to pull work.
    Wake,
    /// The request of this generation for this range timed out or was covered.
    DropExpectation {
        /// Session generation that the command is for.
        generation: u64,
        /// First requested height.
        start_height: Height,
        /// Requested header count.
        count: u32,
    },
}

/// What a command asks the routine's owner to do.
#[derive(Debug)]
pub enum CommandAction<H, B> {
    /// Write a response on the peer's stream.
    SendHeaders {
        /// Headers in ascending height order.
        headers: Vec<H>,
        /// Advisory serialized body sizes, parallel to `headers`.
        body_sizes: Vec<u32>,
    },
    /// Write a new block on the peer's stream.
    ForwardNewBlock(B),
    /// Try to pull work.
    Pull,
    /// Nothing.
    Idle,
}

/// What the routine does after a frame.
#[derive(Debug)]
pub enum FrameFollowUp {
    /// The routine ends with this reject.
    Stop(SinkReject),
    /// A response freed the slot: try to pull work.
    Pull,
    /// A range went back to the queue: wake those who wait for work.
    WakeOthers,
    /// Wait for the next input.
    Wait,
}

/// The end of a rest of length `delay` that starts at `now`.
pub open spec fn rest_end(now: Timestamp, delay: Duration) -> Timestamp {
    Timestamp { nanos: (now.nanos + delay.nanos) as u128 }
}

/// The schedule after a range of an empty response was given back, if there is one.
pub open spec fn after_given_back(
    schedule: SchedulerView,
    peer: Seq<u8>,
    generation: u64,
    range: Option<RangeRequest>,
) -> SchedulerView {
    match range {
        Some(range) => schedule.returned(peer, generation, range, ReturnReason::EmptyResponse),
        None => schedule,
    }
}

/// One peer's routine.
#[derive(Debug)]
pub struct HeaderSyncPeerRoutine {
    /// The peer.
    pub peer_id: ZakuraPeerId,
    /// Its local state.
    pub local: HsLocal,
    /// The generation of its session.
    pub generation: u64,
}

impl HeaderSyncPeerRoutine {
    /// A routine over fresh local state.
    pub fn new(peer_id: ZakuraPeerId, local: HsLocal, generation: u64) -> (routine: Self)
        ensures
            routine.peer_id == peer_id,
            routine.local == local,
            routine.generation == generation,
    {
        HeaderSyncPeerRoutine { peer_id, local, generation }
    }

    /// Takes a frame in: the guard's verdict comes first, and a frame that passes is gated
    /// and correlated before it is decoded. A throttled new block and a late response for a
    /// dropped range are finished, and a response that nothing asked for is reported.
    pub fn begin_frame<H, B>(&mut self, guarded: Admit, kind: InboundKind, now: Timestamp) -> (start:
        FrameStart<H, B>)
        requires
            old(self).local@.gate.new_block_meter.in_range(now),
        ensures
            final(self).peer_id == old(self).peer_id,
            final(self).generation == old(self).generation,
            old(self).local.wf() ==> final(self).local.wf(),
            match guarded {
                Admit::Throttle => start == FrameStart::<H, B>::Finished(Ingest::Done)
                    && final(self).local@ == old(self).local@,
                Admit::Reject(reason) => start == FrameStart::<H, B>::Finished(
                    Ingest::Reject(SinkReject::Protocol(RejectCause::Guard(reason))),
                ) && final(self).local@ == old(self).local@,
                Admit::Pass => {
                    &&& final(self).local@ == old(self).local@.correlated(kind, now)
                    &&& match old(self).local@.correlation(kind, now) {
                        Correlation::Throttled | Correlation::LateCovered => start == FrameStart::<
                            H,
                            B,
                        >::Finished(Ingest::Done),
                        Correlation::Unsolicited => start matches FrameStart::Report(emission)
                            && emission.reports(
                            old(self).peer_id@,
                            HeaderSyncMisbehavior::UnsolicitedHeaders,
                        ) && emission.verdict == Verdict::Reject(
                            HeaderSyncWireError::UnsolicitedHeaders,
                        ),
                        Correlation::Decode(expected) => start == FrameStart::<H, B>::Decode(
                            expected,
                        ),
                    }
                },
            },
    {
        match guarded {
            Admit::Throttle => FrameStart::Finished(Ingest::Done),
            Admit::Reject(reason) => FrameStart::Finished(
                Ingest::Reject(SinkReject::Protocol(RejectCause::Guard(reason))),
            ),
            Admit::Pass => match self.local.correlate(kind, now) {
                Correlation::Throttled | Correlation::LateCovered => FrameStart::Finished(
                    Ingest::Done,
                ),
                Correlation::Unsolicited => FrameStart::Report(
                    self.local.unsolicited(&self.peer_id),
                ),
                Correlation::Decode(expected) => FrameStart::Decode(expected),
            },
        }
    }

    /// Concludes a frame once its event was delivered or not. A full reactor queue is not
    /// the peer's fault: the frame is finished, and a response that it carried is awaited
    /// as before.
    pub fn finish_frame(
        &mut self,
        expected: Option<ExpectedHeadersResponse>,
        verdict: Verdict,
        delivered: bool,
    ) -> (ingest: Ingest)
        ensures
            final(self).peer_id == old(self).peer_id,
            final(self).generation == old(self).generation,
            old(self).local.wf() ==> final(self).local.wf(),
            ingest == ingest::without_local_reject(ingest::ingest_of(verdict, delivered)),
            final(self).local@ == old(self).local@.settled(expected, verdict, delivered),
    {
        run_inbound(self.local.settle_delivery(expected, verdict, delivered))
    }

    /// Handles a command. A drop that is addressed to another generation is ignored.
    pub fn handle_command<H, B>(&mut self, command: HeaderSyncPeerCommand<H, B>) -> (action:
        CommandAction<H, B>)
        ensures
            final(self).peer_id == old(self).peer_id,
            final(self).generation == old(self).generation,
            old(self).local.wf() ==> final(self).local.wf(),
            match command {
                HeaderSyncPeerCommand::SendHeaders { headers, body_sizes } => action
                    == (CommandAction::<H, B>::SendHeaders { headers, body_sizes }) && final(self).local@ == old(self).local@,
                HeaderSyncPeerCommand::ForwardNewBlock(block) => action == CommandAction::<
                    H,
                    B,
                >::ForwardNewBlock(block) && final(self).local@ == old(self).local@,
                HeaderSyncPeerCommand::Wake => action == CommandAction::<H, B>::Pull && final(self).local@ == old(self).local@,
                HeaderSyncPeerCommand::DropExpectation { generation, start_height, count } => if generation
                    == old(self).generation {
                    action == CommandAction::<H, B>::Pull && final(self).local@ == old(self).local@.dropped(start_height, count)
                } else {
                    action == CommandAction::<H, B>::Idle && final(self).local@ == old(self).local@
                },
            },
    {
        match command {
            HeaderSyncPeerCommand::SendHeaders { headers, body_sizes } => {
                CommandAction::SendHeaders { headers, body_sizes }
            },
            HeaderSyncPeerCommand::ForwardNewBlock(block) => CommandAction::ForwardNewBlock(block),
            HeaderSyncPeerCommand::Wake => CommandAction::Pull,
            HeaderSyncPeerCommand::DropExpectation { generation, start_height, count } => {
                if generation == self.generation {
                    self.local.apply_drop_expectation(start_height, count);
                    CommandAction::Pull
                } else {
                    CommandAction::Idle
                }
            },
        }
    }

    /// Acts on the outcome of the most recent response, and says whether the slot is
    /// free for a pull. A response with headers completes the request. One without
    /// gives the range back and lets the peer rest.
    pub fn apply_headers_outcome(
        &mut self,
        schedule: &mut RangeScheduler,
        config: &ZakuraHeaderSyncConfig,
        now: Timestamp,
    ) -> (freed: bool)
        requires
            old(self).local.wf(),
            old(schedule).wf(),
            now.nanos + config.empty_headers_retry_delay.nanos <= u128::MAX,
        ensures
            final(self).peer_id == old(self).peer_id,
            final(self).generation == old(self).generation,
            final(self).local.wf(),
            final(schedule).wf(),
            freed == old(self).local@.completes(),
            final(self).local@ == old(self).local@.outcome_applied(
                rest_end(now, config.empty_headers_retry_delay),
            ),
            final(schedule)@ == after_given_back(
                old(schedule)@,
                old(self).peer_id@,
                old(self).generation,
                old(self).local@.given_back(),
            ),
    {
        let outcome = match self.local.last_headers_outcome {
            Some(outcome) => outcome,
            None => {
                return false;
            },
        };
        self.local.last_headers_outcome = None;
        let range = match self.local.in_flight {
            Some(range) => range,
            None => {
                return false;
            },
        };
        self.local.in_flight = None;
        match outcome {
            HeadersOutcome::Filled => {
                self.local.empty_retry_until = None;
                true
            },
            HeadersOutcome::Empty => {
                schedule.return_work(
                    &self.peer_id,
                    self.generation,
                    range,
                    ReturnReason::EmptyResponse,
                );
                self.local.empty_retry_until = Some(now.plus(config.empty_headers_retry_delay));
                false
            },
        }
    }

    /// Concludes a frame: a reject ends the routine, a response that freed the slot leads
    /// to a pull, and a range that went back to the queue is there for others.
    pub fn after_frame(
        &mut self,
        ingest: Ingest,
        schedule: &mut RangeScheduler,
        config: &ZakuraHeaderSyncConfig,
        now: Timestamp,
    ) -> (follow_up: FrameFollowUp)
        requires
            old(self).local.wf(),
            old(schedule).wf(),
            now.nanos + config.empty_headers_retry_delay.nanos <= u128::MAX,
        ensures
            final(self).peer_id == old(self).peer_id,
            final(self).generation == old(self).generation,
            final(self).local.wf(),
            final(schedule).wf(),
            match ingest {
                Ingest::Reject(reject) => follow_up == FrameFollowUp::Stop(reject) && final(self).local@ == old(self).local@ && final(schedule)@ == old(schedule)@,
                _ => {
                    &&& follow_up == (if old(self).local@.completes() {
                        FrameFollowUp::Pull
                    } else if old(self).local@.given_back() is Some {
                        FrameFollowUp::WakeOthers
                    } else {
                        FrameFollowUp::Wait
                    })
                    &&& final(self).local@ == old(self).local@.outcome_applied(
                        rest_end(now, config.empty_headers_retry_delay),
                    )
                    &&& final(schedule)@ == after_given_back(
                        old(schedule)@,
                        old(self).peer_id@,
                        old(self).generation,
                        old(self).local@.given_back(),
                    )
                },
            },
    {
        match ingest {
            Ingest::Reject(reject) => FrameFollowUp::Stop(reject),
            _ => {
                let gives_back = match self.local.last_headers_outcome {
                    Some(HeadersOutcome::Empty) => self.local.in_flight.is_some(),
                    _ => false,
                };
                if self.apply_headers_outcome(schedule, config, now) {
                    FrameFollowUp::Pull
                } else if gives_back {
                    FrameFollowUp::WakeOthers
                } else {
                    FrameFollowUp::Wait
                }
            },
        }
    }

    /// Takes one eligible range to request, if the slot is free.
    ///
    /// Nothing is taken while a request is in flight, before the first valid status, or
    /// while the peer rests after an empty response.
    pub fn begin_pull(
        &mut self,
        schedule: &mut RangeScheduler,
        config: &ZakuraHeaderSyncConfig,
        now: Timestamp,
    ) -> (work: Option<HeaderWork>)
        requires
            old(self).local.wf(),
            old(schedule).wf(),
            config.wf(),
        ensures
            final(self).peer_id == old(self).peer_id,
            final(self).generation == old(self).generation,
            final(self).local.wf(),
            final(schedule).wf(),
            final(self).local@ == old(self).local@.rested(now),
            ({
                let rested = old(self).local@.rested(now);
                if rested.may_pull() {
                    let taken = old(schedule)@.taken(
                        old(self).peer_id@,
                        old(self).generation,
                        rested.pull_caps(),
                        config.request_limits,
                    );
                    work == taken.0 && final(schedule)@ == taken.1
                } else {
                    work is None && final(schedule)@ == old(schedule)@
                }
            }),
            work matches Some(work) ==> work.range.wf() && 1 <= work.count
                <= config.request_limits.hard_max && work.count == work.range.count,
            work matches Some(work) ==> {
                &&& old(self).local.in_flight is None
                &&& old(self).local.gate.received_status
                &&& old(self).local.empty_retry_until matches Some(until) ==> until.nanos
                    <= now.nanos
                &&& work.range.start_height.0 + work.range.count - 1
                    <= old(self).local.gate.advertised_tip.0
                &&& old(self).local.advertised_max_headers_per_response matches Some(max)
                    && work.count <= max
                &&& work.count <= config.request_limits.frame_max
            },
    {
        match self.local.empty_retry_until {
            Some(until) => {
                if now.nanos >= until.nanos {
                    self.local.empty_retry_until = None;
                }
            },
            None => {},
        }
        if self.local.in_flight.is_some() || !self.local.gate.received_status
            || self.local.empty_retry_until.is_some() {
            return None;
        }
        let max_headers_per_response = match self.local.advertised_max_headers_per_response {
            Some(max) => max,
            None => {
                return None;
            },
        };
        let caps = PeerPullCaps {
            advertised_tip: self.local.gate.advertised_tip,
            max_headers_per_response,
        };
        proof {
            scheduler_laws::law_work_within_caps(
                schedule@,
                self.peer_id@,
                self.generation,
                caps,
                config.request_limits,
            );
        }
        schedule.take_for_peer(&self.peer_id, self.generation, caps, config.request_limits)
    }

    /// Concludes a pull once the request was written or not. A request that was written
    /// is expected and in flight, and the reactor is told; work whose request was not
    /// written, or whose count is out of bounds, goes back to the queue.
    pub fn finish_pull<H, B>(
        &mut self,
        schedule: &mut RangeScheduler,
        config: &ZakuraHeaderSyncConfig,
        work: HeaderWork,
        sent: bool,
    ) -> (event: Option<HeaderSyncEvent<H, B>>)
        requires
            old(self).local.wf(),
            old(schedule).wf(),
            work.range.wf(),
        ensures
            final(self).peer_id == old(self).peer_id,
            final(self).generation == old(self).generation,
            final(self).local.wf(),
            final(schedule).wf(),
            ({
                let in_bounds = 1 <= work.count <= config.request_limits.hard_max;
                if sent && in_bounds {
                    &&& event matches Some(HeaderSyncEvent::PeerWorkAssigned {
                        peer,
                        generation,
                        start_height,
                        count,
                        anchor_hash,
                        finalized,
                        forward,
                    }) && peer@ == old(self).peer_id@ && generation == old(self).generation
                        && start_height == work.range.start_height && count == work.count
                        && anchor_hash == work.range.link_hash && finalized == work.range.finalized
                        && forward == (work.range.priority == RangePriority::Forward)
                    &&& final(self).local@ == old(self).local@.requested(work)
                    &&& final(schedule)@ == old(schedule)@
                } else {
                    &&& event is None
                    &&& final(self).local@ == old(self).local@
                    &&& final(schedule)@ == old(schedule)@.returned(
                        old(self).peer_id@,
                        old(self).generation,
                        work.range,
                        ReturnReason::SendFailed,
                    )
                }
            }),
    {
        let expected = match ExpectedHeadersResponse::new(
            work.range.start_height,
            work.count,
            config.request_limits.hard_max,
        ) {
            Ok(expected) => expected,
            Err(_) => {
                schedule.return_work(
                    &self.peer_id,
                    self.generation,
                    work.range,
                    ReturnReason::SendFailed,
                );
                return None;
            },
        };
        if !sent {
            schedule.return_work(
                &self.peer_id,
                self.generation,
                work.range,
                ReturnReason::SendFailed,
            );
            return None;
        }
        self.local.record_expected(expected);
        self.local.in_flight = Some(work.range);
        Some(
            HeaderSyncEvent::PeerWorkAssigned {
                peer: self.peer_id.duplicate(),
                generation: self.generation,
                start_height: work.range.start_height,
                count: work.count,
                anchor_hash: work.range.link_hash,
                finalized: work.range.finalized,
                forward: work.range.priority == RangePriority::Forward,
            },
        )
    }

    /// Gives a range in flight back when the routine ends, on every way out.
    pub fn teardown(&mut self, schedule: &mut RangeScheduler)
        requires
            old(self).local.wf(),
            old(schedule).wf(),
        ensures
            final(self).peer_id == old(self).peer_id,
            final(self).generation == old(self).generation,
            final(self).local.wf(),
            final(self).local@ == (HsLocalView { in_flight: None, ..old(self).local@ }),
            final(schedule).wf(),
            final(schedule)@ == (match old(self).local@.in_flight {
                Some(range) => old(schedule)@.returned(
                    old(self).peer_id@,
                    old(self).generation,
                    range,
                    ReturnReason::Teardown,
                ),
                None => old(schedule)@,
            }),
    {
        let range = match self.local.in_flight {
            Some(range) => range,
            None => {
                return ;
            },
        };
        self.local.in_flight = None;
        schedule.return_work(&self.peer_id, self.generation, range, ReturnReason::Teardown);
    }
}

/// A full reactor queue never consumes a solicited response: when it could not be handed
/// on, the request awaits its response as before, with the same expectations, the same
/// range in flight and no outcome, and with no other change either where none was pending.
pub proof fn law_undelivered_response_stays_expected<H, B>(
    local: HsLocalView,
    config: ZakuraHeaderSyncConfig,
    headers: Vec<H>,
    body_sizes: Vec<u32>,
    now: Timestamp,
)
    requires
        local.expected.len() > 0,
    ensures
        ({
            let message = HeaderSyncMessage::<H, B>::Headers { headers, body_sizes };
            let after = local.correlated(InboundKind::Headers, now).after_message(
                config,
                message,
                now,
            ).settled(Some(local.expected[0]), Verdict::Forward, false);
            &&& local.correlation(InboundKind::Headers, now) == Correlation::Decode(
                Some(local.expected[0]),
            )
            &&& after.expected == local.expected
            &&& after.in_flight == local.in_flight
            &&& after.outcome is None
            &&& local.outcome is None ==> after == local
        }),
{
    assert(seq![local.expected[0]] + local.expected.drop_first() =~= local.expected);
}

/// Responses are matched to requests first in, first out: with nothing expected
/// before, the response to a request that was just sent meets exactly its expectation.
pub proof fn law_request_is_expected_before_its_response(
    local: HsLocalView,
    work: HeaderWork,
    now: Timestamp,
)
    ensures
        local.expected.len() == 0 ==> local.requested(work).correlation(InboundKind::Headers, now)
            == Correlation::Decode(
            Some(
                ExpectedHeadersResponse {
                    start_height: work.range.start_height,
                    count: work.count,
                },
            ),
        ),
        local.expected.len() > 0 ==> local.requested(work).correlation(InboundKind::Headers, now)
            == local.correlation(InboundKind::Headers, now) && local.requested(work).correlated(
            InboundKind::Headers,
            now,
        ).expected == local.correlated(InboundKind::Headers, now).requested(work).expected,
{
    if local.expected.len() > 0 {
        assert(local.requested(work).expected.drop_first() =~= local.expected.drop_first().push(
            ExpectedHeadersResponse { start_height: work.range.start_height, count: work.count },
        ));
    }
}

/// No second request goes out while one is in flight.
pub proof fn law_one_request_in_flight(local: HsLocalView, work: HeaderWork, now: Timestamp)
    ensures
        !local.requested(work).rested(now).may_pull(),
{
}

/// A drop for a request that is not expected first changes nothing, so a late drop neither
/// consumes a fresh expectation nor frees its slot.
pub proof fn law_stale_drop_is_ignored(local: HsLocalView, start: Height, count: u32)
    requires
        !local.expects(start, count),
    ensures
        local.dropped(start, count) == local,
{
}

/// After a drop of the oldest expectation the slot is free, and where nothing else was
/// expected, the late response is absorbed instead of rejected.
pub proof fn law_dropped_response_is_absorbed(
    local: HsLocalView,
    start: Height,
    count: u32,
    now: Timestamp,
)
    requires
        local.expects(start, count),
    ensures
        local.dropped(start, count).in_flight is None,
        local.expected.len() == 1 ==> local.dropped(start, count).correlation(
            InboundKind::Headers,
            now,
        ) == Correlation::LateCovered,
{
}

/// A routine that ends never strands its range: the range is covered, first in its queue or
/// held by another session of the peer, and this session does not hold it any more.
pub proof fn law_teardown_never_strands(
    schedule: SchedulerView,
    peer: Seq<u8>,
    generation: u64,
    range: RangeRequest,
)
    ensures
        ({
            let after = schedule.returned(peer, generation, range, ReturnReason::Teardown);
            &&& after.is_covered(range) || after.held_by_other(peer, generation, range) || (
            after.queue(range.priority).len() > 0 && after.queue(range.priority)[0] == range)
            &&& !(after.assigned.contains_key((range, peer)) && after.assigned[(range, peer)]
                == generation)
        }),
{
}

} // verus!
