//! Validation of inbound header-sync messages against one peer's local state.

use crate::header_sync::config::{
    self, clamp_advertised_range, clamp_inflight, ZakuraHeaderSyncConfig,
};
use crate::header_sync::events::{
    ExpectedHeadersResponse, HeaderSyncEvent, HeaderSyncMessage, HeaderSyncMisbehavior,
    HeaderSyncStatus, HeaderSyncWireError,
};
use crate::header_sync::meters::RateMeter;
use crate::time::{Duration, Timestamp};
use crate::types::{Height, ZakuraPeerId};
use crate::vec_map::MapKey;
use vstd::prelude::*;

verus! {

/// Why a sink rejects a peer or a frame.
#[derive(Debug)]
pub enum SinkReject {
    /// The peer violated the protocol; the connection is torn down.
    Protocol(RejectCause),
    /// A local queue was full or closed; the peer is not at fault.
    Local,
}

/// What a protocol reject is about.
#[derive(Debug)]
pub enum RejectCause {
    /// A message that is not well formed or was not asked for.
    Wire(HeaderSyncWireError),
    /// A frame that the stream guard refused.
    Guard(String),
}

/// What becomes of one inbound frame.
#[derive(Debug)]
pub enum Ingest {
    /// Go on; the message was forwarded.
    Continue,
    /// The frame is finished without rejecting the peer.
    Done,
    /// Reject the peer.
    Reject(SinkReject),
}

/// The stream guard's verdict on a frame.
#[derive(Debug)]
pub enum Admit {
    /// The frame is within its limits.
    Pass,
    /// The frame is dropped.
    Throttle,
    /// The peer violated the protocol.
    Reject(String),
}

/// The wire codes of the two messages that are told apart before decoding.
#[derive(Copy, Clone, Debug)]
pub struct HeaderSyncWireTypes {
    /// Code of a headers response.
    pub headers: u8,
    /// Code of a new block.
    pub new_block: u8,
}

/// What a frame is before it is decoded.
#[derive(Copy, Clone, Debug, PartialEq, Eq, Structural)]
pub enum InboundKind {
    /// A headers response.
    Headers,
    /// A new block.
    NewBlock,
    /// Anything else.
    Control,
}

impl HeaderSyncWireTypes {
    /// The codes differ.
    pub open spec fn wf(self) -> bool {
        self.headers != self.new_block
    }

    /// What a frame of `message_type` is.
    pub fn classify(self, message_type: u16) -> (kind: InboundKind)
        requires
            self.wf(),
        ensures
            kind == (if message_type == self.headers {
                InboundKind::Headers
            } else if message_type == self.new_block {
                InboundKind::NewBlock
            } else {
                InboundKind::Control
            }),
    {
        if message_type == self.headers as u16 {
            InboundKind::Headers
        } else if message_type == self.new_block as u16 {
            InboundKind::NewBlock
        } else {
            InboundKind::Control
        }
    }
}

/// What a peer has advertised, and its inbound rate gates.
#[derive(Copy, Clone, Debug, PartialEq, Eq, Structural)]
pub struct PeerGate {
    /// Gate on new blocks, applied before they are decoded.
    pub new_block_meter: RateMeter,
    /// Highest height the peer advertised.
    pub advertised_tip: Height,
    /// Whether a valid status arrived.
    pub received_status: bool,
    /// Gate on statuses that do not advance the tip.
    pub inbound_status_meter: RateMeter,
}

/// A status with its caps clamped to what this node takes.
pub open spec fn clamped_status(
    status: HeaderSyncStatus,
    config: ZakuraHeaderSyncConfig,
) -> HeaderSyncStatus {
    HeaderSyncStatus {
        max_headers_per_response: config::clamp_from_one(
            status.max_headers_per_response as int,
            config.max_advertised_range as int,
        ) as u32,
        max_inflight_requests: config::clamp_from_one(
            status.max_inflight_requests as int,
            config.max_inflight_per_peer as int,
        ) as u16,
        ..status
    }
}

impl PeerGate {
    /// A peer that has advertised nothing: its tip starts at the trusted anchor.
    pub fn new(
        anchor_height: Height,
        inbound_status_min_interval: Duration,
        new_block_min_interval: Duration,
        now: Timestamp,
    ) -> (gate: Self)
        ensures
            gate == (PeerGate {
                new_block_meter: RateMeter { next_allowed: now, interval: new_block_min_interval },
                advertised_tip: anchor_height,
                received_status: false,
                inbound_status_meter: RateMeter {
                    next_allowed: now,
                    interval: inbound_status_min_interval,
                },
            }),
    {
        PeerGate {
            new_block_meter: RateMeter::new(new_block_min_interval, now),
            advertised_tip: anchor_height,
            received_status: false,
            inbound_status_meter: RateMeter::new(inbound_status_min_interval, now),
        }
    }

    /// Both meters can be offered an event at `now`.
    pub open spec fn in_range(self, now: Timestamp) -> bool {
        self.new_block_meter.in_range(now) && self.inbound_status_meter.in_range(now)
    }

    /// Takes one token for a new block. A frame without one is dropped before it is
    /// decoded.
    pub fn admit_new_block(&mut self, now: Timestamp) -> (admitted: bool)
        requires
            old(self).new_block_meter.in_range(now),
        ensures
            admitted == old(self).new_block_meter.admits(now),
            *final(self) == (PeerGate {
                new_block_meter: old(self).new_block_meter.after_offered(now),
                ..*old(self)
            }),
    {
        self.new_block_meter.try_take(now)
    }

    /// The violation of a status that arrives at `now`, if it is one.
    pub open spec fn status_fault(self, status: HeaderSyncStatus, now: Timestamp) -> Option<
        HeaderSyncMisbehavior,
    > {
        if status.anchor_height.0 > status.tip_height.0 {
            Some(HeaderSyncMisbehavior::InvalidStatus)
        } else if status.tip_height.0 <= self.advertised_tip.0
            && !self.inbound_status_meter.admits(now) {
            Some(HeaderSyncMisbehavior::StatusSpam)
        } else {
            None
        }
    }

    /// A peer gate after a status arrived at `now`.
    pub open spec fn after_status(self, status: HeaderSyncStatus, now: Timestamp) -> PeerGate {
        match self.status_fault(status, now) {
            Some(_) => self,
            None => PeerGate {
                advertised_tip: status.tip_height,
                received_status: true,
                inbound_status_meter: self.inbound_status_meter.after_offered(now),
                ..self
            },
        }
    }

    /// Checks a status: the anchor must not be past the tip, and a status that does not
    /// advance the tip needs a token. A valid one is taken over with its caps clamped.
    pub fn ingest_status(
        &mut self,
        config: &ZakuraHeaderSyncConfig,
        status: HeaderSyncStatus,
        now: Timestamp,
    ) -> (accepted: Result<HeaderSyncStatus, HeaderSyncMisbehavior>)
        requires
            config.wf(),
            old(self).inbound_status_meter.in_range(now),
        ensures
            accepted == (match old(self).status_fault(status, now) {
                Some(fault) => Err::<HeaderSyncStatus, HeaderSyncMisbehavior>(fault),
                None => Ok(clamped_status(status, *config)),
            }),
            *final(self) == old(self).after_status(status, now),
    {
        if status.anchor_height.0 > status.tip_height.0 {
            return Err(HeaderSyncMisbehavior::InvalidStatus);
        }
        let advances = status.tip_height.0 > self.advertised_tip.0;
        let token = self.inbound_status_meter.try_take(now);
        if !advances && !token {
            return Err(HeaderSyncMisbehavior::StatusSpam);
        }
        self.advertised_tip = status.tip_height;
        self.received_status = true;
        let clamped = HeaderSyncStatus {
            tip_height: status.tip_height,
            tip_hash: status.tip_hash,
            anchor_height: status.anchor_height,
            max_headers_per_response: clamp_advertised_range(
                status.max_headers_per_response,
                config.max_advertised_range,
            ),
            max_inflight_requests: clamp_inflight(
                status.max_inflight_requests,
                config.max_inflight_per_peer,
            ),
        };
        Ok(clamped)
    }

    /// The violation of a request for `count` headers, if it is one.
    pub open spec fn get_headers_fault(self, count: u32, limit: u32) -> Option<
        HeaderSyncMisbehavior,
    > {
        if !self.received_status {
            Some(HeaderSyncMisbehavior::GetHeadersSpam)
        } else if count == 0 || count > limit {
            Some(HeaderSyncMisbehavior::GetHeadersTooLong)
        } else {
            None
        }
    }

    /// Checks an inbound request: it must follow a status and stay within this node's
    /// serving limit.
    pub fn ingest_get_headers(&self, config: &ZakuraHeaderSyncConfig, count: u32) -> (fault: Option<
        HeaderSyncMisbehavior,
    >)
        ensures
            fault == self.get_headers_fault(count, config.inbound_get_headers_count_limit),
    {
        if !self.received_status {
            return Some(HeaderSyncMisbehavior::GetHeadersSpam);
        }
        if count == 0 || count > config.inbound_get_headers_count_limit {
            return Some(HeaderSyncMisbehavior::GetHeadersTooLong);
        }
        None
    }
}

/// What the delivery of an event means for the peer.
#[derive(Debug)]
pub enum Verdict {
    /// A narrowed effect was forwarded: an undelivered one is a local reject.
    Forward,
    /// A violation was recorded: the peer stays, delivered or not.
    Record,
    /// A violation ends the connection, delivered or not.
    Reject(HeaderSyncWireError),
}

/// An event for the reactor and what its delivery means.
#[derive(Debug)]
pub struct Emission<H, B> {
    /// The event to deliver.
    pub event: HeaderSyncEvent<H, B>,
    /// What the delivery means.
    pub verdict: Verdict,
}

/// What a frame needs first.
#[derive(Debug)]
pub enum FrameStart<H, B> {
    /// Nothing: the frame is finished.
    Finished(Ingest),
    /// To be reported without decoding it.
    Report(Emission<H, B>),
    /// To be decoded; a response is held to the expectation.
    Decode(Option<ExpectedHeadersResponse>),
}

impl<H, B> Emission<H, B> {
    /// Whether this reports `reason` of `peer`.
    pub open spec fn reports(&self, peer: Seq<u8>, reason: HeaderSyncMisbehavior) -> bool {
        self.event matches HeaderSyncEvent::PeerMisbehavior { peer: p, reason: r } && p@ == peer
            && r == reason
    }
}

/// The report of a violation that ends the connection.
pub fn reject_misbehavior<H, B>(
    peer: &ZakuraPeerId,
    reason: HeaderSyncMisbehavior,
    error: HeaderSyncWireError,
) -> (emission: Emission<H, B>)
    ensures
        emission.reports(peer@, reason),
        emission.verdict == Verdict::Reject(error),
{
    Emission {
        event: HeaderSyncEvent::PeerMisbehavior { peer: peer.duplicate(), reason },
        verdict: Verdict::Reject(error),
    }
}

/// The report of a violation that leaves the connection alone.
pub fn record_misbehavior<H, B>(peer: &ZakuraPeerId, reason: HeaderSyncMisbehavior) -> (emission:
    Emission<H, B>)
    ensures
        emission.reports(peer@, reason),
        emission.verdict == Verdict::Record,
{
    Emission {
        event: HeaderSyncEvent::PeerMisbehavior { peer: peer.duplicate(), reason },
        verdict: Verdict::Record,
    }
}

/// Whether `emission` is what a decoded `message` of `peer` calls for at `now`.
pub open spec fn emission_for<H, B>(
    gate: PeerGate,
    config: ZakuraHeaderSyncConfig,
    peer: Seq<u8>,
    message: HeaderSyncMessage<H, B>,
    now: Timestamp,
    emission: Emission<H, B>,
) -> bool {
    match message {
        HeaderSyncMessage::Status(status) => match gate.status_fault(status, now) {
            Some(fault) => emission.reports(peer, fault) && emission.verdict == Verdict::Record,
            None => (emission.event matches HeaderSyncEvent::PeerStatusUpdated {
                peer: p,
                status: s,
            } && p@ == peer && s == clamped_status(status, config)) && emission.verdict
                == Verdict::Forward,
        },
        HeaderSyncMessage::Headers { headers, body_sizes } => if headers@.len()
            != body_sizes@.len() {
            emission.reports(peer, HeaderSyncMisbehavior::MalformedMessage) && emission.verdict
                == Verdict::Record
        } else {
            (emission.event matches HeaderSyncEvent::PeerHeadersReceived {
                peer: p,
                headers: h,
                body_sizes: s,
            } && p@ == peer && h == headers && s == body_sizes) && emission.verdict
                == Verdict::Forward
        },
        HeaderSyncMessage::GetHeaders { start_height, count } => match gate.get_headers_fault(
            count,
            config.inbound_get_headers_count_limit,
        ) {
            Some(fault) => emission.reports(peer, fault) && emission.verdict == Verdict::Record,
            None => (emission.event matches HeaderSyncEvent::InboundGetHeadersRequested {
                peer: p,
                start_height: s,
                count: c,
            } && p@ == peer && s == start_height && c == count) && emission.verdict
                == Verdict::Forward,
        },
        HeaderSyncMessage::NewBlock(block) => (
        emission.event matches HeaderSyncEvent::NewBlockCandidate { peer: p, block: b } && p@
            == peer && b == block) && emission.verdict == Verdict::Forward,
    }
}

/// A peer gate after a decoded `message` at `now`.
pub open spec fn gate_after<H, B>(
    gate: PeerGate,
    message: HeaderSyncMessage<H, B>,
    now: Timestamp,
) -> PeerGate {
    match message {
        HeaderSyncMessage::Status(status) => gate.after_status(status, now),
        _ => gate,
    }
}

/// Validates one decoded message and says what to tell the reactor about it.
pub fn ingest_message<H, B>(
    gate: &mut PeerGate,
    config: &ZakuraHeaderSyncConfig,
    peer: &ZakuraPeerId,
    message: HeaderSyncMessage<H, B>,
    now: Timestamp,
) -> (emission: Emission<H, B>)
    requires
        config.wf(),
        old(gate).inbound_status_meter.in_range(now),
    ensures
        emission_for(*old(gate), *config, peer@, message, now, emission),
        *final(gate) == gate_after(*old(gate), message, now),
{
    match message {
        HeaderSyncMessage::Status(status) => match gate.ingest_status(config, status, now) {
            Ok(clamped) => Emission {
                event: HeaderSyncEvent::PeerStatusUpdated {
                    peer: peer.duplicate(),
                    status: clamped,
                },
                verdict: Verdict::Forward,
            },
            Err(fault) => record_misbehavior(peer, fault),
        },
        HeaderSyncMessage::Headers { headers, body_sizes } => {
            if headers.len() != body_sizes.len() {
                return record_misbehavior(peer, HeaderSyncMisbehavior::MalformedMessage);
            }
            Emission {
                event: HeaderSyncEvent::PeerHeadersReceived {
                    peer: peer.duplicate(),
                    headers,
                    body_sizes,
                },
                verdict: Verdict::Forward,
            }
        },
        HeaderSyncMessage::GetHeaders { start_height, count } => match gate.ingest_get_headers(
            config,
            count,
        ) {
            Some(fault) => record_misbehavior(peer, fault),
            None => Emission {
                event: HeaderSyncEvent::InboundGetHeadersRequested {
                    peer: peer.duplicate(),
                    start_height,
                    count,
                },
                verdict: Verdict::Forward,
            },
        },
        HeaderSyncMessage::NewBlock(block) => Emission {
            event: HeaderSyncEvent::NewBlockCandidate { peer: peer.duplicate(), block },
            verdict: Verdict::Forward,
        },
    }
}

/// What becomes of a frame once its event was delivered or not.
pub open spec fn ingest_of(verdict: Verdict, delivered: bool) -> Ingest {
    match verdict {
        Verdict::Forward => if delivered {
            Ingest::Continue
        } else {
            Ingest::Reject(SinkReject::Local)
        },
        Verdict::Record => Ingest::Continue,
        Verdict::Reject(error) => Ingest::Reject(SinkReject::Protocol(RejectCause::Wire(error))),
    }
}

/// What becomes of a frame once its event was delivered or not.
pub fn settle(verdict: Verdict, delivered: bool) -> (ingest: Ingest)
    ensures
        ingest == ingest_of(verdict, delivered),
{
    match verdict {
        Verdict::Forward => {
            if delivered {
                Ingest::Continue
            } else {
                Ingest::Reject(SinkReject::Local)
            }
        },
        Verdict::Record => Ingest::Continue,
        Verdict::Reject(error) => Ingest::Reject(SinkReject::Protocol(RejectCause::Wire(error))),
    }
}

/// A local reject with the peer's fault taken out of it: the frame is finished.
pub open spec fn without_local_reject(ingest: Ingest) -> Ingest {
    match ingest {
        Ingest::Reject(SinkReject::Local) => Ingest::Done,
        other => other,
    }
}

/// Turns a local reject, which is not the peer's fault, into a finished frame.
pub fn run_inbound(ingest: Ingest) -> (outcome: Ingest)
    ensures
        outcome == without_local_reject(ingest),
{
    match ingest {
        Ingest::Reject(SinkReject::Local) => Ingest::Done,
        other => other,
    }
}

/// A message that decodes never costs the peer its connection: whatever it says and
/// whether or not the reactor can be told, the frame is forwarded, recorded or
/// finished.
pub proof fn law_decoded_messages_never_disconnect<H, B>(
    gate: PeerGate,
    config: ZakuraHeaderSyncConfig,
    peer: Seq<u8>,
    message: HeaderSyncMessage<H, B>,
    now: Timestamp,
    emission: Emission<H, B>,
    delivered: bool,
)
    requires
        emission_for(gate, config, peer, message, now, emission),
    ensures
        !(without_local_reject(ingest_of(emission.verdict, delivered)) is Reject),
{
}

/// A status is taken over exactly when its anchor is not past its tip and it advances
/// the advertised tip or the rate gate has a token; one that is refused changes
/// nothing.
pub proof fn law_status_is_taken_or_ignored(
    gate: PeerGate,
    status: HeaderSyncStatus,
    now: Timestamp,
)
    ensures
        gate.status_fault(status, now) is None <==> status.anchor_height.0 <= status.tip_height.0
            && (status.tip_height.0 > gate.advertised_tip.0 || gate.inbound_status_meter.admits(
            now,
        )),
        gate.status_fault(status, now) is Some ==> gate.after_status(status, now) == gate,
        gate.status_fault(status, now) is None ==> gate.after_status(status, now).advertised_tip
            == status.tip_height && gate.after_status(status, now).received_status,
{
}

} // verus!
