//! The per-peer header-sync pipe: a routine whose expectations arrive as commands.

use std::collections::VecDeque;

use crate::header_sync::config::ZakuraHeaderSyncConfig;
use crate::header_sync::events::{
    ExpectedHeadersResponse, HeaderSyncMessage, HeaderSyncMisbehavior, HeaderSyncWireError,
};
use crate::header_sync::ingest::{
    self, ingest_message, reject_misbehavior, settle, Admit, Emission, FrameStart, InboundKind,
    Ingest, PeerGate, RejectCause, SinkReject, Verdict,
};
use crate::time::{Duration, Timestamp};
use crate::types::{Height, ZakuraPeerId};
use vstd::prelude::*;

verus! {

/// A command from the scheduler to a pipe.
#[derive(Copy, Clone, Debug, PartialEq, Eq, Structural)]
pub enum PipeCommand {
    /// A request was queued; expect its response.
    RecordExpectedHeaders(ExpectedHeadersResponse),
}

/// What is known of a frame before it is decoded.
#[derive(Copy, Clone, Debug, PartialEq, Eq, Structural)]
pub enum PipeCorrelation {
    /// A new block too soon after the last one: dropped without decoding.
    Throttled,
    /// A response that nothing asked for.
    Unsolicited,
    /// Decode the frame; a response is held to the expectation.
    Decode(Option<ExpectedHeadersResponse>),
}

/// The local state of one peer's pipe.
#[derive(Debug)]
pub struct HsLocal {
    /// Expected responses, oldest first.
    pub expected_headers: VecDeque<ExpectedHeadersResponse>,
    /// Commands that were not handled yet, oldest first.
    pub commands: VecDeque<PipeCommand>,
    /// What the peer advertised, and its rate gates.
    pub gate: PeerGate,
}

/// The expectation that a command records.
pub open spec fn recorded(command: PipeCommand) -> ExpectedHeadersResponse {
    match command {
        PipeCommand::RecordExpectedHeaders(expected) => expected,
    }
}

impl HsLocal {
    /// The expectations once every waiting command is handled.
    pub open spec fn all_expected(&self) -> Seq<ExpectedHeadersResponse> {
        self.expected_headers@ + self.commands@.map_values(|command: PipeCommand| recorded(command))
    }

    /// The state of a fresh session.
    pub fn new(
        anchor_height: Height,
        inbound_status_min_interval: Duration,
        new_block_min_interval: Duration,
        now: Timestamp,
    ) -> (local: Self)
        ensures
            local.expected_headers@ == Seq::<ExpectedHeadersResponse>::empty(),
            local.commands@ == Seq::<PipeCommand>::empty(),
            local.gate.advertised_tip == anchor_height,
            !local.gate.received_status,
            local.gate.inbound_status_meter.interval == inbound_status_min_interval,
            local.gate.inbound_status_meter.next_allowed == now,
            local.gate.new_block_meter.interval == new_block_min_interval,
            local.gate.new_block_meter.next_allowed == now,
    {
        HsLocal {
            expected_headers: VecDeque::new(),
            commands: VecDeque::new(),
            gate: PeerGate::new(
                anchor_height,
                inbound_status_min_interval,
                new_block_min_interval,
                now,
            ),
        }
    }

    /// Queues a command.
    pub fn enqueue_command(&mut self, command: PipeCommand)
        ensures
            final(self).commands@ == old(self).commands@.push(command),
            final(self).expected_headers@ == old(self).expected_headers@,
            final(self).gate == old(self).gate,
    {
        self.commands.push_back(command);
    }

    /// Handles one command.
    pub fn handle_command(&mut self, command: PipeCommand)
        ensures
            final(self).expected_headers@ == old(self).expected_headers@.push(recorded(command)),
            final(self).commands@ == old(self).commands@,
            final(self).gate == old(self).gate,
    {
        match command {
            PipeCommand::RecordExpectedHeaders(expected) => {
                self.expected_headers.push_back(expected);
            },
        }
    }

    /// Handles every waiting command, oldest first.
    pub fn drain_ready_commands(&mut self)
        ensures
            final(self).commands@.len() == 0,
            final(self).expected_headers@ == old(self).all_expected(),
            final(self).gate == old(self).gate,
    {
        while self.commands.len() > 0
            invariant
                self.all_expected() == old(self).all_expected(),
                self.gate == old(self).gate,
            decreases self.commands@.len(),
        {
            let ghost before = *self;
            match self.commands.pop_front() {
                Some(command) => {
                    self.handle_command(command);
                    assert(self.all_expected() =~= before.all_expected());
                },
                None => {},
            }
        }
        assert(self.all_expected() =~= self.expected_headers@);
    }

    /// Puts an expectation back as the oldest one.
    pub fn restore_expected_headers(&mut self, expected: ExpectedHeadersResponse)
        ensures
            final(self).expected_headers@ == seq![expected] + old(self).expected_headers@,
            final(self).commands@ == old(self).commands@,
            final(self).gate == old(self).gate,
    {
        self.expected_headers.push_front(expected);
        assert(self.expected_headers@ =~= seq![expected] + old(self).expected_headers@);
    }

    /// Gates and correlates a frame before it is decoded.
    pub fn correlate(&mut self, kind: InboundKind, now: Timestamp) -> (correlation: PipeCorrelation)
        requires
            old(self).gate.new_block_meter.in_range(now),
        ensures
            final(self).commands@ == old(self).commands@,
            match kind {
                InboundKind::NewBlock => correlation == (if old(self).gate.new_block_meter.admits(
                    now,
                ) {
                    PipeCorrelation::Decode(None)
                } else {
                    PipeCorrelation::Throttled
                }) && final(self).expected_headers@ == old(self).expected_headers@ && final(self).gate == (PeerGate {
                    new_block_meter: old(self).gate.new_block_meter.after_offered(now),
                    ..old(self).gate
                }),
                InboundKind::Headers => final(self).gate == old(self).gate && if old(self).expected_headers@.len() > 0 {
                    correlation == PipeCorrelation::Decode(Some(old(self).expected_headers@[0]))
                        && final(self).expected_headers@ == old(self).expected_headers@.drop_first()
                } else {
                    correlation == PipeCorrelation::Unsolicited && final(self).expected_headers@
                        == old(self).expected_headers@
                },
                InboundKind::Control => correlation == PipeCorrelation::Decode(None) && final(self).expected_headers@ == old(self).expected_headers@ && final(self).gate == old(self).gate,
            },
    {
        match kind {
            InboundKind::NewBlock => {
                if self.gate.admit_new_block(now) {
                    PipeCorrelation::Decode(None)
                } else {
                    PipeCorrelation::Throttled
                }
            },
            InboundKind::Headers => {
                let popped = self.expected_headers.pop_front();
                proof {
                    if old(self).expected_headers@.len() > 0 {
                        assert(self.expected_headers@ =~= old(self).expected_headers@.drop_first());
                    }
                }
                match popped {
                    Some(expected) => PipeCorrelation::Decode(Some(expected)),
                    None => PipeCorrelation::Unsolicited,
                }
            },
            InboundKind::Control => PipeCorrelation::Decode(None),
        }
    }

    /// Takes a frame in, once every waiting command is handled: an expectation that was
    /// queued before the frame is there when the frame is correlated. Then the guard's
    /// verdict comes first, and a frame that passes is gated and correlated before it is
    /// decoded. A throttled new block is finished, and a response that nothing asked for is
    /// reported.
    pub fn begin_frame<H, B>(
        &mut self,
        peer: &ZakuraPeerId,
        guarded: Admit,
        kind: InboundKind,
        now: Timestamp,
    ) -> (start: FrameStart<H, B>)
        requires
            old(self).gate.new_block_meter.in_range(now),
        ensures
            final(self).commands@.len() == 0,
            final(self).gate == (if guarded is Pass && kind == InboundKind::NewBlock {
                PeerGate {
                    new_block_meter: old(self).gate.new_block_meter.after_offered(now),
                    ..old(self).gate
                }
            } else {
                old(self).gate
            }),
            final(self).expected_headers@ == (if guarded is Pass && kind == InboundKind::Headers
                && old(self).all_expected().len() > 0 {
                old(self).all_expected().drop_first()
            } else {
                old(self).all_expected()
            }),
            match guarded {
                Admit::Throttle => start == FrameStart::<H, B>::Finished(Ingest::Done),
                Admit::Reject(reason) => start == FrameStart::<H, B>::Finished(
                    Ingest::Reject(SinkReject::Protocol(RejectCause::Guard(reason))),
                ),
                Admit::Pass => match kind {
                    InboundKind::NewBlock => start == (if old(self).gate.new_block_meter.admits(
                        now,
                    ) {
                        FrameStart::<H, B>::Decode(None)
                    } else {
                        FrameStart::<H, B>::Finished(Ingest::Done)
                    }),
                    InboundKind::Headers => if old(self).all_expected().len() > 0 {
                        start == FrameStart::<H, B>::Decode(Some(old(self).all_expected()[0]))
                    } else {
                        start matches FrameStart::Report(emission) && emission.reports(
                            peer@,
                            HeaderSyncMisbehavior::UnsolicitedHeaders,
                        ) && emission.verdict == Verdict::Reject(
                            HeaderSyncWireError::UnsolicitedHeaders,
                        )
                    },
                    InboundKind::Control => start == FrameStart::<H, B>::Decode(None),
                },
            },
    {
        self.drain_ready_commands();
        match guarded {
            Admit::Throttle => FrameStart::Finished(Ingest::Done),
            Admit::Reject(reason) => FrameStart::Finished(
                Ingest::Reject(SinkReject::Protocol(RejectCause::Guard(reason))),
            ),
            Admit::Pass => match self.correlate(kind, now) {
                PipeCorrelation::Throttled => FrameStart::Finished(Ingest::Done),
                PipeCorrelation::Unsolicited => FrameStart::Report(
                    reject_misbehavior(
                        peer,
                        HeaderSyncMisbehavior::UnsolicitedHeaders,
                        HeaderSyncWireError::UnsolicitedHeaders,
                    ),
                ),
                PipeCorrelation::Decode(expected) => FrameStart::Decode(expected),
            },
        }
    }

    /// Validates a decoded frame, or reports one that does not decode.
    pub fn ingest_decoded<H, B>(
        &mut self,
        config: &ZakuraHeaderSyncConfig,
        peer: &ZakuraPeerId,
        decoded: Result<HeaderSyncMessage<H, B>, HeaderSyncWireError>,
        now: Timestamp,
    ) -> (emission: Emission<H, B>)
        requires
            config.wf(),
            old(self).gate.inbound_status_meter.in_range(now),
        ensures
            final(self).commands@ == old(self).commands@,
            final(self).expected_headers@ == old(self).expected_headers@,
            match decoded {
                Ok(message) => ingest::emission_for(
                    old(self).gate,
                    *config,
                    peer@,
                    message,
                    now,
                    emission,
                ) && final(self).gate == ingest::gate_after(old(self).gate, message, now),
                Err(error) => emission.reports(peer@, HeaderSyncMisbehavior::MalformedMessage)
                    && emission.verdict == Verdict::Reject(error) && final(self).gate == old(self).gate,
            },
    {
        match decoded {
            Ok(message) => ingest_message(&mut self.gate, config, peer, message, now),
            Err(error) => reject_misbehavior(peer, HeaderSyncMisbehavior::MalformedMessage, error),
        }
    }

    /// Concludes a frame once its event was delivered or not. A solicited response that
    /// could not be delivered is expected again.
    pub fn settle_delivery(
        &mut self,
        expected: Option<ExpectedHeadersResponse>,
        verdict: Verdict,
        delivered: bool,
    ) -> (ingest: Ingest)
        ensures
            ingest == ingest::ingest_of(verdict, delivered),
            final(self).commands@ == old(self).commands@,
            final(self).gate == old(self).gate,
            final(self).expected_headers@ == (match expected {
                Some(expected) => if verdict is Forward && !delivered {
                    seq![expected] + old(self).expected_headers@
                } else {
                    old(self).expected_headers@
                },
                None => old(self).expected_headers@,
            }),
    {
        let ingest = settle(verdict, delivered);
        match &ingest {
            Ingest::Reject(SinkReject::Local) => match expected {
                Some(expected) => self.restore_expected_headers(expected),
                None => {},
            },
            _ => {},
        }
        ingest
    }
}

/// A solicited response is never taken for an unsolicited one: while the command that
/// records its request waits, a frame finds an expectation, and with nothing expected
/// before it finds the one of that request.
pub proof fn law_queued_expectations_are_met(local: HsLocal, command: PipeCommand)
    requires
        local.commands@.contains(command),
    ensures
        local.all_expected().len() > 0,
        local.all_expected().contains(recorded(command)),
        local.expected_headers@.len() == 0 && local.commands@[0] == command
            ==> local.all_expected()[0] == recorded(command),
{
    let i = choose|i: int| 0 <= i < local.commands@.len() && local.commands@[i] == command;
    assert(local.all_expected()[local.expected_headers@.len() + i] == recorded(command));
}

/// What a node of a pipe does.
#[derive(Copy, Clone, Debug, PartialEq, Eq, Structural)]
pub enum NodeKind {
    /// Refuses frames.
    Guard,
    /// Decodes frames.
    Decode,
    /// Changes local state.
    Mutate,
    /// Emits events.
    Emit,
}

/// A node of a pipe.
#[derive(Copy, Clone, Debug)]
pub struct Node {
    /// Name of the node.
    pub id: &'static str,
    /// What the node does.
    pub kind: NodeKind,
}

/// An edge of a pipe.
#[derive(Copy, Clone, Debug)]
pub struct Edge {
    /// Where the edge starts.
    pub from: &'static str,
    /// Where the edge ends.
    pub to: &'static str,
    /// When the edge is taken.
    pub on: &'static str,
}

/// The stages of a pipe and how frames pass between them.
#[derive(Debug)]
pub struct PipeShape {
    /// The service.
    pub service: &'static str,
    /// The stages.
    pub nodes: Vec<Node>,
    /// How frames pass between them.
    pub edges: Vec<Edge>,
}

/// The stages of the header-sync pipe: responses are correlated before they are
/// decoded, and everything that decodes is emitted.
pub fn pipe_shape() -> (shape: PipeShape)
    ensures
        shape.service@ == "header-sync"@,
        shape.nodes@ == seq![
            Node { id: "guard", kind: NodeKind::Guard },
            Node { id: "decode", kind: NodeKind::Decode },
            Node { id: "correlate", kind: NodeKind::Mutate },
            Node { id: "emit", kind: NodeKind::Emit },
        ],
        shape.edges@ == seq![
            Edge { from: "guard", to: "correlate", on: "Headers" },
            Edge { from: "guard", to: "decode", on: "Control" },
            Edge { from: "correlate", to: "decode", on: "Expected" },
            Edge { from: "decode", to: "emit", on: "Ok" },
        ],
{
    let mut nodes: Vec<Node> = Vec::new();
    nodes.push(Node { id: "guard", kind: NodeKind::Guard });
    nodes.push(Node { id: "decode", kind: NodeKind::Decode });
    nodes.push(Node { id: "correlate", kind: NodeKind::Mutate });
    nodes.push(Node { id: "emit", kind: NodeKind::Emit });
    let mut edges: Vec<Edge> = Vec::new();
    edges.push(Edge { from: "guard", to: "correlate", on: "Headers" });
    edges.push(Edge { from: "guard", to: "decode", on: "Control" });
    edges.push(Edge { from: "correlate", to: "decode", on: "Expected" });
    edges.push(Edge { from: "decode", to: "emit", on: "Ok" });
    PipeShape { service: "header-sync", nodes, edges }
}

} // verus!
