//! The discovery exchange between connected peers.
//!
//! A record names its author and carries what only the discovery book reads, of type
//! `R`.

use crate::bootstrap::ZakuraServiceId;
use crate::error::{DiscoveryFault, ResourceCap, ZakuraHandlerError};
use crate::limits::ZakuraConnectionLimits;
use crate::node::{self, peer_node_id, NodeId};
use crate::rate::{admit_inbound_message, InboundMessageAdmission, RateBucket};
use crate::streams::ZAKURA_CLOSE_BAD_PRELUDE;
use crate::time::{Duration, Timestamp, NANOS_PER_SEC};
use crate::types::{Frame, ZakuraPeerId};
use crate::vec_map::MapKey;
use vstd::prelude::*;

verus! {

/// Message type of every discovery frame.
pub const DISCOVERY_FRAME_MESSAGE_TYPE: u16 = 1;

/// Timeout of each step of an exchange, in seconds.
pub const DISCOVERY_EXCHANGE_TIMEOUT_SECS: u64 = 10;

/// What a node says of itself.
#[derive(Clone, Debug)]
pub struct ZakuraNodeRecord<R> {
    /// The node that the record is about.
    pub node_id: NodeId,
    /// What the discovery book reads.
    pub body: R,
}

/// A discovery message.
#[derive(Clone, Debug)]
pub enum DiscoveryMessage<R> {
    /// The sender's own record.
    Hello {
        /// The record.
        record: ZakuraNodeRecord<R>,
    },
    /// Asks for a sample of peers.
    GetPeers {
        /// Most records to send.
        limit: u16,
        /// Services that the peers should have.
        wanted_services: Vec<ZakuraServiceId>,
        /// Nodes to leave out.
        exclude_node_ids: Vec<NodeId>,
    },
    /// A sample of peers.
    Peers {
        /// Their records.
        records: Vec<ZakuraNodeRecord<R>>,
    },
    /// Asks for services.
    GetServices,
    /// Services.
    Services,
}

/// Why the discovery book refused a record.
#[derive(Copy, Clone, Debug, PartialEq, Eq, Structural)]
pub enum DiscoveryBookError {
    /// No direct address could be used.
    NoUsableDirectAddress,
    /// A direct address cannot be dialed.
    NonDialableDirectAddress,
    /// The record itself is refused.
    Record(DiscoveryRecordError),
    /// Any other reason.
    Other,
}

/// Why a record is refused.
#[derive(Copy, Clone, Debug, PartialEq, Eq, Structural)]
pub enum DiscoveryRecordError {
    /// It has expired.
    Expired,
    /// It expires too far in the future.
    FarFutureExpiry,
    /// Any other reason.
    Invalid,
}

/// Whether a refused record of a peer only means that the record does not help.
pub open spec fn is_advisory(error: DiscoveryBookError) -> bool {
    match error {
        DiscoveryBookError::NoUsableDirectAddress => true,
        DiscoveryBookError::NonDialableDirectAddress => true,
        DiscoveryBookError::Record(error) => error != DiscoveryRecordError::Invalid,
        DiscoveryBookError::Other => false,
    }
}

/// Whether a refused record of a peer only means that the record does not help.
pub fn is_advisory_self_record_import_error(error: DiscoveryBookError) -> (advisory: bool)
    ensures
        advisory == is_advisory(error),
{
    match error {
        DiscoveryBookError::NoUsableDirectAddress => true,
        DiscoveryBookError::NonDialableDirectAddress => true,
        DiscoveryBookError::Record(DiscoveryRecordError::Expired) => true,
        DiscoveryBookError::Record(DiscoveryRecordError::FarFutureExpiry) => true,
        DiscoveryBookError::Record(DiscoveryRecordError::Invalid) => false,
        DiscoveryBookError::Other => false,
    }
}

/// Whether the import of a peer's own record lets the exchange go on.
pub open spec fn tolerable(imported: Result<(), DiscoveryBookError>) -> bool {
    match imported {
        Ok(()) => true,
        Err(error) => is_advisory(error),
    }
}

/// Whether the import of a peer's own record lets the exchange go on.
fn is_tolerable(imported: &Result<(), DiscoveryBookError>) -> (ok: bool)
    ensures
        ok == tolerable(*imported),
{
    match imported {
        Ok(()) => true,
        Err(error) => is_advisory_self_record_import_error(*error),
    }
}

/// The message of a discovery frame. `decoded` is what the payload decodes to.
pub fn decode_discovery_frame<R>(frame: &Frame, decoded: Option<DiscoveryMessage<R>>) -> (message:
    Result<DiscoveryMessage<R>, DiscoveryFault>)
    ensures
        message == (if frame.message_type != DISCOVERY_FRAME_MESSAGE_TYPE || frame.flags != 0 {
            Err(
                DiscoveryFault::UnexpectedFrame {
                    message_type: frame.message_type,
                    flags: frame.flags,
                },
            )
        } else {
            match decoded {
                Some(message) => Ok(message),
                None => Err(DiscoveryFault::Malformed),
            }
        }),
{
    if frame.message_type != DISCOVERY_FRAME_MESSAGE_TYPE || frame.flags != 0 {
        return Err(
            DiscoveryFault::UnexpectedFrame {
                message_type: frame.message_type,
                flags: frame.flags,
            },
        );
    }
    match decoded {
        Some(message) => Ok(message),
        None => Err(DiscoveryFault::Malformed),
    }
}

/// The frame of an encoded discovery message.
pub fn discovery_frame(payload: Vec<u8>) -> (frame: Frame)
    ensures
        frame == (Frame { message_type: DISCOVERY_FRAME_MESSAGE_TYPE, flags: 0, payload }),
{
    Frame { message_type: DISCOVERY_FRAME_MESSAGE_TYPE, flags: 0, payload }
}

/// Decides whether a discovery message is read at all.
pub fn read_admitted_discovery_message(
    payload_len: usize,
    limits: &ZakuraConnectionLimits,
    bucket: &mut RateBucket,
    now: Timestamp,
) -> (admitted: Result<(), ZakuraHandlerError>)
    requires
        old(bucket).wf(),
    ensures
        final(bucket).wf(),
        admitted == (if payload_len > limits.max_message_bytes {
            Err(ZakuraHandlerError::Oversize)
        } else if !old(bucket).grants(now) {
            Err(ZakuraHandlerError::ResourceLimit(ResourceCap::DiscoveryMessageRate))
        } else {
            Ok(())
        }),
        *final(bucket) == (if payload_len > limits.max_message_bytes {
            *old(bucket)
        } else {
            old(bucket).after_take(now)
        }),
{
    match admit_inbound_message(payload_len, limits.max_message_bytes, bucket, now) {
        InboundMessageAdmission::Admit => Ok(()),
        InboundMessageAdmission::Oversize => Err(ZakuraHandlerError::Oversize),
        InboundMessageAdmission::Throttled => Err(
            ZakuraHandlerError::ResourceLimit(ResourceCap::DiscoveryMessageRate),
        ),
    }
}

/// The record of a hello about the peer that sent it.
pub open spec fn hello_record<R>(message: DiscoveryMessage<R>, peer: NodeId) -> Result<
    ZakuraNodeRecord<R>,
    DiscoveryFault,
> {
    match message {
        DiscoveryMessage::Hello { record } => if record.node_id == peer {
            Ok(record)
        } else {
            Err(DiscoveryFault::HelloIdentity)
        },
        _ => Err(DiscoveryFault::MissingHello),
    }
}

/// Takes the record out of a hello about the peer that sent it.
pub fn discovery_hello_record<R>(message: DiscoveryMessage<R>, peer: NodeId) -> (record: Result<
    ZakuraNodeRecord<R>,
    DiscoveryFault,
>)
    ensures
        record == hello_record(message, peer),
{
    match message {
        DiscoveryMessage::Hello { record } => if record.node_id.same_key(&peer) {
            Ok(record)
        } else {
            Err(DiscoveryFault::HelloIdentity)
        },
        _ => Err(DiscoveryFault::MissingHello),
    }
}

/// How long to wait between exchanges: as configured, but at least a second.
pub fn exchange_interval(configured: Duration) -> (interval: Duration)
    ensures
        interval.nanos == (if configured.nanos >= NANOS_PER_SEC {
            configured.nanos
        } else {
            NANOS_PER_SEC
        }),
{
    configured.max(Duration::from_secs(1))
}

/// What a discovery stream worker waits for.
#[derive(Copy, Clone, Debug, PartialEq, Eq, Structural)]
pub enum WorkerPhase {
    /// The first message.
    FirstHello,
    /// The import of the first hello.
    FirstImport,
    /// Its own hello to be written.
    HelloReply,
    /// A message.
    Serving,
    /// The import of another hello.
    FollowupImport,
    /// The import of a peer sample.
    PeersImport,
    /// Its peer sample to be written.
    PeersReply,
    /// Nothing.
    Done,
}

/// What happened to a discovery stream worker.
#[derive(Debug)]
pub enum WorkerEvent<R> {
    /// A message was read, or not.
    Read(Result<DiscoveryMessage<R>, ZakuraHandlerError>),
    /// The peer's own record was imported, or not.
    Imported(Result<(), DiscoveryBookError>),
    /// A peer sample was imported.
    PeersImported,
    /// A message was written, or not.
    Wrote {
        /// Whether it was.
        ok: bool,
    },
}

/// What a discovery stream worker does next.
#[derive(Debug)]
pub enum WorkerAction<R> {
    /// Read a message.
    Read,
    /// Import the peer's own record.
    ImportSelf(ZakuraNodeRecord<R>),
    /// Write a hello.
    WriteHello {
        /// Largest frame.
        max_frame_bytes: u32,
    },
    /// Write a sample of peers.
    WritePeers {
        /// Most records to send.
        limit: u16,
        /// Services that the peers should have.
        wanted_services: Vec<ZakuraServiceId>,
        /// Nodes to leave out.
        exclude_node_ids: Vec<NodeId>,
        /// Largest frame.
        max_frame_bytes: u32,
    },
    /// Import a sample of peers.
    ImportPeers(Vec<ZakuraNodeRecord<R>>),
    /// Reset the stream and stop.
    Reset(u32),
    /// Finish the stream and stop.
    Finish,
    /// Stop.
    End,
    /// Wait for what is expected.
    Wait,
}

/// A discovery stream worker.
#[derive(Copy, Clone, Debug)]
pub struct DiscoveryWorker {
    /// The peer.
    pub peer: NodeId,
    /// Largest frame to write.
    pub response_frame_cap: u32,
    /// What it waits for.
    pub phase: WorkerPhase,
    /// Whether another hello was accepted.
    pub accepted_followup_hello: bool,
    /// Whether a peer sample was imported.
    pub imported_peer_batch: bool,
}

/// What follows a message, once hellos were exchanged.
pub open spec fn served<R>(worker: DiscoveryWorker, message: DiscoveryMessage<R>) -> (
    DiscoveryWorker,
    WorkerAction<R>,
) {
    match message {
        DiscoveryMessage::Hello { record } => if worker.accepted_followup_hello || record.node_id
            != worker.peer {
            (worker.in_phase(WorkerPhase::Done), WorkerAction::Reset(ZAKURA_CLOSE_BAD_PRELUDE))
        } else {
            (worker.in_phase(WorkerPhase::FollowupImport), WorkerAction::ImportSelf(record))
        },
        DiscoveryMessage::GetPeers { limit, wanted_services, exclude_node_ids } => (
            worker.in_phase(WorkerPhase::PeersReply),
            WorkerAction::WritePeers {
                limit,
                wanted_services,
                exclude_node_ids,
                max_frame_bytes: worker.response_frame_cap,
            },
        ),
        DiscoveryMessage::Peers { records } => if worker.imported_peer_batch {
            (worker.in_phase(WorkerPhase::Done), WorkerAction::Finish)
        } else {
            (worker.in_phase(WorkerPhase::PeersImport), WorkerAction::ImportPeers(records))
        },
        _ => (worker.in_phase(WorkerPhase::Done), WorkerAction::Reset(ZAKURA_CLOSE_BAD_PRELUDE)),
    }
}

/// What follows an event.
pub open spec fn worker_next<R>(worker: DiscoveryWorker, event: WorkerEvent<R>) -> (
    DiscoveryWorker,
    WorkerAction<R>,
) {
    let reset = (
        worker.in_phase(WorkerPhase::Done),
        WorkerAction::<R>::Reset(ZAKURA_CLOSE_BAD_PRELUDE),
    );
    match (worker.phase, event) {
        (WorkerPhase::FirstHello, WorkerEvent::Read(Ok(message))) => match hello_record(
            message,
            worker.peer,
        ) {
            Ok(record) => (
                worker.in_phase(WorkerPhase::FirstImport),
                WorkerAction::ImportSelf(record),
            ),
            Err(_) => reset,
        },
        (WorkerPhase::Serving, WorkerEvent::Read(Ok(message))) => served(worker, message),
        (WorkerPhase::FirstHello, WorkerEvent::Read(Err(error)))
        | (WorkerPhase::Serving, WorkerEvent::Read(Err(error))) => if error
            == ZakuraHandlerError::Closed {
            (worker.in_phase(WorkerPhase::Done), WorkerAction::End)
        } else {
            reset
        },
        (WorkerPhase::FirstImport, WorkerEvent::Imported(imported)) => if tolerable(imported) {
            (
                worker.in_phase(WorkerPhase::HelloReply),
                WorkerAction::WriteHello { max_frame_bytes: worker.response_frame_cap },
            )
        } else {
            reset
        },
        (WorkerPhase::HelloReply, WorkerEvent::Wrote { ok }) => if ok {
            (worker.in_phase(WorkerPhase::Serving), WorkerAction::Read)
        } else {
            reset
        },
        (WorkerPhase::FollowupImport, WorkerEvent::Imported(imported)) => if tolerable(imported) {
            (
                DiscoveryWorker {
                    phase: WorkerPhase::Serving,
                    accepted_followup_hello: true,
                    ..worker
                },
                WorkerAction::Read,
            )
        } else {
            reset
        },
        (WorkerPhase::PeersImport, WorkerEvent::PeersImported) => (
            DiscoveryWorker { phase: WorkerPhase::Serving, imported_peer_batch: true, ..worker },
            WorkerAction::Read,
        ),
        (WorkerPhase::PeersReply, WorkerEvent::Wrote { ok }) => if ok {
            (worker.in_phase(WorkerPhase::Done), WorkerAction::Finish)
        } else {
            reset
        },
        _ => (worker, WorkerAction::Wait),
    }
}

impl DiscoveryWorker {
    /// The worker in another phase.
    pub open spec fn in_phase(self, phase: WorkerPhase) -> DiscoveryWorker {
        DiscoveryWorker { phase, ..self }
    }

    /// A worker for a stream of an authenticated peer, unless the peer's identity is no
    /// node. It writes frames that both sides accept.
    pub fn new(
        peer: &ZakuraPeerId,
        limits: &ZakuraConnectionLimits,
        prelude_max_frame_bytes: u32,
    ) -> (worker: Option<Self>)
        ensures
            match worker {
                Some(worker) => {
                    &&& node::node_of(peer@, worker.peer)
                    &&& worker.response_frame_cap == (if limits.max_frame_bytes
                        <= prelude_max_frame_bytes {
                        limits.max_frame_bytes
                    } else {
                        prelude_max_frame_bytes
                    })
                    &&& worker.phase == WorkerPhase::FirstHello
                    &&& !worker.accepted_followup_hello
                    &&& !worker.imported_peer_batch
                },
                None => peer@.len() != 32 || !node::is_public_key(peer@),
            },
    {
        match peer_node_id(peer) {
            Some(node) => Some(
                DiscoveryWorker {
                    peer: node,
                    response_frame_cap: if limits.max_frame_bytes <= prelude_max_frame_bytes {
                        limits.max_frame_bytes
                    } else {
                        prelude_max_frame_bytes
                    },
                    phase: WorkerPhase::FirstHello,
                    accepted_followup_hello: false,
                    imported_peer_batch: false,
                },
            ),
            None => None,
        }
    }

    /// Stops with a reset.
    fn reset<R>(&mut self) -> (action: WorkerAction<R>)
        ensures
            *final(self) == old(self).in_phase(WorkerPhase::Done),
            action == WorkerAction::<R>::Reset(ZAKURA_CLOSE_BAD_PRELUDE),
    {
        self.phase = WorkerPhase::Done;
        WorkerAction::Reset(ZAKURA_CLOSE_BAD_PRELUDE)
    }

    /// Decides what follows a message, once hellos were exchanged.
    fn on_message<R>(&mut self, message: DiscoveryMessage<R>) -> (action: WorkerAction<R>)
        ensures
            (*final(self), action) == served(*old(self), message),
    {
        match message {
            DiscoveryMessage::Hello { record } => {
                if self.accepted_followup_hello || !record.node_id.same_key(&self.peer) {
                    self.reset()
                } else {
                    self.phase = WorkerPhase::FollowupImport;
                    WorkerAction::ImportSelf(record)
                }
            },
            DiscoveryMessage::GetPeers { limit, wanted_services, exclude_node_ids } => {
                self.phase = WorkerPhase::PeersReply;
                WorkerAction::WritePeers {
                    limit,
                    wanted_services,
                    exclude_node_ids,
                    max_frame_bytes: self.response_frame_cap,
                }
            },
            DiscoveryMessage::Peers { records } => {
                if self.imported_peer_batch {
                    self.phase = WorkerPhase::Done;
                    WorkerAction::Finish
                } else {
                    self.phase = WorkerPhase::PeersImport;
                    WorkerAction::ImportPeers(records)
                }
            },
            DiscoveryMessage::GetServices | DiscoveryMessage::Services => self.reset(),
        }
    }

    /// Decides what follows an event.
    pub fn on_event<R>(&mut self, event: WorkerEvent<R>) -> (action: WorkerAction<R>)
        ensures
            (*final(self), action) == worker_next(*old(self), event),
    {
        match (self.phase, event) {
            (WorkerPhase::FirstHello, WorkerEvent::Read(Ok(message))) => {
                match discovery_hello_record(message, self.peer) {
                    Ok(record) => {
                        self.phase = WorkerPhase::FirstImport;
                        WorkerAction::ImportSelf(record)
                    },
                    Err(_) => self.reset(),
                }
            },
            (WorkerPhase::Serving, WorkerEvent::Read(Ok(message))) => self.on_message(message),
            (WorkerPhase::FirstHello, WorkerEvent::Read(Err(error))) => {
                if error == ZakuraHandlerError::Closed {
                    self.phase = WorkerPhase::Done;
                    WorkerAction::End
                } else {
                    self.reset()
                }
            },
            (WorkerPhase::Serving, WorkerEvent::Read(Err(error))) => {
                if error == ZakuraHandlerError::Closed {
                    self.phase = WorkerPhase::Done;
                    WorkerAction::End
                } else {
                    self.reset()
                }
            },
            (WorkerPhase::FirstImport, WorkerEvent::Imported(imported)) => {
                if is_tolerable(&imported) {
                    self.phase = WorkerPhase::HelloReply;
                    WorkerAction::WriteHello { max_frame_bytes: self.response_frame_cap }
                } else {
                    self.reset()
                }
            },
            (WorkerPhase::HelloReply, WorkerEvent::Wrote { ok }) => {
                if ok {
                    self.phase = WorkerPhase::Serving;
                    WorkerAction::Read
                } else {
                    self.reset()
                }
            },
            (WorkerPhase::FollowupImport, WorkerEvent::Imported(imported)) => {
                if is_tolerable(&imported) {
                    self.phase = WorkerPhase::Serving;
                    self.accepted_followup_hello = true;
                    WorkerAction::Read
                } else {
                    self.reset()
                }
            },
            (WorkerPhase::PeersImport, WorkerEvent::PeersImported) => {
                self.phase = WorkerPhase::Serving;
                self.imported_peer_batch = true;
                WorkerAction::Read
            },
            (WorkerPhase::PeersReply, WorkerEvent::Wrote { ok }) => {
                if ok {
                    self.phase = WorkerPhase::Done;
                    WorkerAction::Finish
                } else {
                    self.reset()
                }
            },
            _ => WorkerAction::Wait,
        }
    }
}

/// The actions of a worker over a run of events.
pub open spec fn worker_run<R>(worker: DiscoveryWorker, events: Seq<WorkerEvent<R>>) -> Seq<
    WorkerAction<R>,
>
    decreases events.len(),
{
    if events.len() == 0 {
        Seq::empty()
    } else {
        let (next, action) = worker_next(worker, events[0]);
        seq![action] + worker_run(next, events.drop_first())
    }
}

/// How many actions of a run import a peer sample.
pub open spec fn batches_imported<R>(actions: Seq<WorkerAction<R>>) -> nat
    decreases actions.len(),
{
    if actions.len() == 0 {
        0
    } else {
        (if actions[0] is ImportPeers {
            1nat
        } else {
            0
        }) + batches_imported(actions.drop_first())
    }
}

/// How many actions of a run answer with a peer sample.
pub open spec fn samples_sent<R>(actions: Seq<WorkerAction<R>>) -> nat
    decreases actions.len(),
{
    if actions.len() == 0 {
        0
    } else {
        (if actions[0] is WritePeers {
            1nat
        } else {
            0
        }) + samples_sent(actions.drop_first())
    }
}

/// How many more samples a worker may still import.
spec fn batches_left(worker: DiscoveryWorker) -> nat {
    if worker.imported_peer_batch || worker.phase == WorkerPhase::PeersImport || worker.phase
        == WorkerPhase::PeersReply || worker.phase == WorkerPhase::Done {
        0
    } else {
        1
    }
}

/// How many more samples a worker may still send.
spec fn samples_left(worker: DiscoveryWorker) -> nat {
    if worker.phase == WorkerPhase::PeersReply || worker.phase == WorkerPhase::Done {
        0
    } else {
        1
    }
}

/// Each step uses up what is left.
proof fn lemma_batches_left<R>(worker: DiscoveryWorker, events: Seq<WorkerEvent<R>>)
    ensures
        batches_imported(worker_run(worker, events)) <= batches_left(worker),
        samples_sent(worker_run(worker, events)) <= samples_left(worker),
    decreases events.len(),
{
    if events.len() > 0 {
        let (next, action) = worker_next(worker, events[0]);
        lemma_batches_left(next, events.drop_first());
        let rest = worker_run(next, events.drop_first());
        assert((seq![action] + rest).drop_first() =~= rest);
    }
}

/// Whatever a peer sends, one discovery stream imports at most one peer sample and sends
/// at most one.
pub proof fn law_one_peer_sample_per_stream<R>(
    worker: DiscoveryWorker,
    events: Seq<WorkerEvent<R>>,
)
    ensures
        batches_imported(worker_run(worker, events)) <= 1,
        samples_sent(worker_run(worker, events)) <= 1,
{
    lemma_batches_left(worker, events);
}

/// Only the authenticated peer's own record is imported as such, and nothing else is
/// imported or sent before that peer said hello: a step that imports a record as the
/// peer's own is about the peer, and a worker that has not heard a hello yet imports no
/// sample and sends nothing.
pub proof fn law_hello_comes_first<R>(worker: DiscoveryWorker, event: WorkerEvent<R>)
    ensures
        worker_next(worker, event).1 matches WorkerAction::ImportSelf(record) ==> record.node_id
            == worker.peer,
        worker.phase == WorkerPhase::FirstHello ==> (worker_next(worker, event).1 is ImportSelf
            || worker_next(worker, event).1 is Reset || worker_next(worker, event).1 is End
            || worker_next(worker, event).1 is Wait),
        worker_next(worker, event).0.peer == worker.peer,
        worker_next(worker, event).0.phase == WorkerPhase::Serving && worker.phase
            != WorkerPhase::Serving ==> worker.phase == WorkerPhase::HelloReply || worker.phase
            == WorkerPhase::FollowupImport || worker.phase == WorkerPhase::PeersImport,
{
}

/// What an outbound exchange waits for.
#[derive(Copy, Clone, Debug, PartialEq, Eq, Structural)]
pub enum ExchangePhase {
    /// Its prelude to be written.
    Prelude,
    /// Its hello to be written.
    Hello,
    /// The peer's hello.
    PeerHello,
    /// The import of the peer's hello.
    Import,
    /// How many peers to ask for.
    SampleLimit,
    /// Its question to be written.
    Question,
    /// The peer's sample.
    Sample,
    /// The import of the peer's sample.
    SampleImport,
    /// Nothing.
    Done,
}

/// What happened to an outbound exchange.
#[derive(Debug)]
pub enum ExchangeEvent<R> {
    /// Something was written, or not.
    Wrote(Result<(), ZakuraHandlerError>),
    /// A message was read, or not.
    Read(Result<DiscoveryMessage<R>, ZakuraHandlerError>),
    /// The peer's own record was imported, or not.
    Imported(Result<(), DiscoveryBookError>),
    /// How many peers to ask for.
    SampleLimit(usize),
    /// The peer's sample was imported.
    PeersImported,
}

/// What an outbound exchange does next.
#[derive(Debug)]
pub enum ExchangeAction<R> {
    /// Write a hello.
    WriteHello,
    /// Read a message.
    Read,
    /// Import the peer's own record.
    ImportSelf(ZakuraNodeRecord<R>),
    /// Find out how many peers to ask for.
    AskSampleLimit,
    /// Ask for that many peers, without wanted services, leaving out those known already.
    WriteGetPeers {
        /// Most records to send.
        limit: u16,
    },
    /// Finish the sending side, then read a message.
    FinishAndRead,
    /// Import the peer's sample.
    ImportPeers(Vec<ZakuraNodeRecord<R>>),
    /// The exchange succeeded.
    Succeed,
    /// The exchange failed.
    Fail(ZakuraHandlerError),
    /// Wait for what is expected.
    Wait,
}

/// An exchange with a peer over a stream of our own.
#[derive(Copy, Clone, Debug)]
pub struct DiscoveryExchange {
    /// The peer.
    pub peer: NodeId,
    /// Most records that a sample may hold.
    pub max_records: u16,
    /// What it waits for.
    pub phase: ExchangePhase,
}

/// What follows an event.
pub open spec fn exchange_next<R>(exchange: DiscoveryExchange, event: ExchangeEvent<R>) -> (
    DiscoveryExchange,
    ExchangeAction<R>,
) {
    let done = exchange.in_phase(ExchangePhase::Done);
    match (exchange.phase, event) {
        (ExchangePhase::Prelude, ExchangeEvent::Wrote(Ok(()))) => (
            exchange.in_phase(ExchangePhase::Hello),
            ExchangeAction::WriteHello,
        ),
        (ExchangePhase::Hello, ExchangeEvent::Wrote(Ok(()))) => (
            exchange.in_phase(ExchangePhase::PeerHello),
            ExchangeAction::Read,
        ),
        (ExchangePhase::Question, ExchangeEvent::Wrote(Ok(()))) => (
            exchange.in_phase(ExchangePhase::Sample),
            ExchangeAction::FinishAndRead,
        ),
        (ExchangePhase::Prelude, ExchangeEvent::Wrote(Err(error)))
        | (ExchangePhase::Hello, ExchangeEvent::Wrote(Err(error)))
        | (ExchangePhase::Question, ExchangeEvent::Wrote(Err(error)))
        | (ExchangePhase::PeerHello, ExchangeEvent::Read(Err(error)))
        | (ExchangePhase::Sample, ExchangeEvent::Read(Err(error))) => (
            done,
            ExchangeAction::Fail(error),
        ),
        (ExchangePhase::PeerHello, ExchangeEvent::Read(Ok(message))) => match hello_record(
            message,
            exchange.peer,
        ) {
            Ok(record) => (
                exchange.in_phase(ExchangePhase::Import),
                ExchangeAction::ImportSelf(record),
            ),
            Err(fault) => (done, ExchangeAction::Fail(ZakuraHandlerError::Discovery(fault))),
        },
        (ExchangePhase::Import, ExchangeEvent::Imported(imported)) => if tolerable(imported) {
            (exchange.in_phase(ExchangePhase::SampleLimit), ExchangeAction::AskSampleLimit)
        } else {
            (
                done,
                ExchangeAction::Fail(ZakuraHandlerError::Discovery(DiscoveryFault::Record)),
            )
        },
        (ExchangePhase::SampleLimit, ExchangeEvent::SampleLimit(limit)) => (
            exchange.in_phase(ExchangePhase::Question),
            ExchangeAction::WriteGetPeers {
                limit: if limit < exchange.max_records {
                    limit as u16
                } else {
                    exchange.max_records
                },
            },
        ),
        (ExchangePhase::Sample, ExchangeEvent::Read(Ok(message))) => match message {
            DiscoveryMessage::Peers { records } => (
                exchange.in_phase(ExchangePhase::SampleImport),
                ExchangeAction::ImportPeers(records),
            ),
            _ => (
                done,
                ExchangeAction::Fail(
                    ZakuraHandlerError::Discovery(DiscoveryFault::UnexpectedMessage),
                ),
            ),
        },
        (ExchangePhase::SampleImport, ExchangeEvent::PeersImported) => (
            done,
            ExchangeAction::Succeed,
        ),
        _ => (exchange, ExchangeAction::Wait),
    }
}

impl DiscoveryExchange {
    /// The exchange in another phase.
    pub open spec fn in_phase(self, phase: ExchangePhase) -> DiscoveryExchange {
        DiscoveryExchange { phase, ..self }
    }

    /// An exchange with an authenticated peer, unless the peer's identity is no node.
    pub fn new(peer: &ZakuraPeerId, max_records: u16) -> (exchange: Result<
        Self,
        ZakuraHandlerError,
    >)
        ensures
            match exchange {
                Ok(exchange) => node::node_of(peer@, exchange.peer) && exchange.max_records
                    == max_records && exchange.phase == ExchangePhase::Prelude,
                Err(error) => error == ZakuraHandlerError::Discovery(DiscoveryFault::PeerNodeId)
                    && (peer@.len() != 32 || !node::is_public_key(peer@)),
            },
    {
        match peer_node_id(peer) {
            Some(node) => Ok(
                DiscoveryExchange { peer: node, max_records, phase: ExchangePhase::Prelude },
            ),
            None => Err(ZakuraHandlerError::Discovery(DiscoveryFault::PeerNodeId)),
        }
    }

    /// Stops with a failure.
    fn fail<R>(&mut self, error: ZakuraHandlerError) -> (action: ExchangeAction<R>)
        ensures
            *final(self) == old(self).in_phase(ExchangePhase::Done),
            action == ExchangeAction::<R>::Fail(error),
    {
        self.phase = ExchangePhase::Done;
        ExchangeAction::Fail(error)
    }

    /// Decides what follows an event.
    pub fn on_event<R>(&mut self, event: ExchangeEvent<R>) -> (action: ExchangeAction<R>)
        ensures
            (*final(self), action) == exchange_next(*old(self), event),
    {
        match (self.phase, event) {
            (ExchangePhase::Prelude, ExchangeEvent::Wrote(Ok(()))) => {
                self.phase = ExchangePhase::Hello;
                ExchangeAction::WriteHello
            },
            (ExchangePhase::Hello, ExchangeEvent::Wrote(Ok(()))) => {
                self.phase = ExchangePhase::PeerHello;
                ExchangeAction::Read
            },
            (ExchangePhase::Question, ExchangeEvent::Wrote(Ok(()))) => {
                self.phase = ExchangePhase::Sample;
                ExchangeAction::FinishAndRead
            },
            (ExchangePhase::Prelude, ExchangeEvent::Wrote(Err(error))) => self.fail(error),
            (ExchangePhase::Hello, ExchangeEvent::Wrote(Err(error))) => self.fail(error),
            (ExchangePhase::Question, ExchangeEvent::Wrote(Err(error))) => self.fail(error),
            (ExchangePhase::PeerHello, ExchangeEvent::Read(Err(error))) => self.fail(error),
            (ExchangePhase::Sample, ExchangeEvent::Read(Err(error))) => self.fail(error),
            (ExchangePhase::PeerHello, ExchangeEvent::Read(Ok(message))) => {
                match discovery_hello_record(message, self.peer) {
                    Ok(record) => {
                        self.phase = ExchangePhase::Import;
                        ExchangeAction::ImportSelf(record)
                    },
                    Err(fault) => self.fail(ZakuraHandlerError::Discovery(fault)),
                }
            },
            (ExchangePhase::Import, ExchangeEvent::Imported(imported)) => {
                if is_tolerable(&imported) {
                    self.phase = ExchangePhase::SampleLimit;
                    ExchangeAction::AskSampleLimit
                } else {
                    self.fail(ZakuraHandlerError::Discovery(DiscoveryFault::Record))
                }
            },
            (ExchangePhase::SampleLimit, ExchangeEvent::SampleLimit(limit)) => {
                self.phase = ExchangePhase::Question;
                ExchangeAction::WriteGetPeers {
                    limit: if limit < self.max_records as usize {
                        limit as u16
                    } else {
                        self.max_records
                    },
                }
            },
            (ExchangePhase::Sample, ExchangeEvent::Read(Ok(message))) => match message {
                DiscoveryMessage::Peers { records } => {
                    self.phase = ExchangePhase::SampleImport;
                    ExchangeAction::ImportPeers(records)
                },
                _ => self.fail(ZakuraHandlerError::Discovery(DiscoveryFault::UnexpectedMessage)),
            },
            (ExchangePhase::SampleImport, ExchangeEvent::PeersImported) => {
                self.phase = ExchangePhase::Done;
                ExchangeAction::Succeed
            },
            _ => ExchangeAction::Wait,
        }
    }
}

/// An exchange never asks for more peers than a sample may hold, imports only the peer's
/// own record as such, and ends when it succeeds or fails.
pub proof fn law_exchange_stays_within_bounds<R>(
    exchange: DiscoveryExchange,
    event: ExchangeEvent<R>,
)
    ensures
        exchange_next(exchange, event).1 matches ExchangeAction::WriteGetPeers { limit } ==> limit
            <= exchange.max_records,
        exchange_next(exchange, event).1 matches ExchangeAction::ImportSelf(record)
            ==> record.node_id == exchange.peer,
        (exchange_next(exchange, event).1 is Succeed || exchange_next(exchange, event).1 is Fail)
            ==> exchange_next(exchange, event).0.phase == ExchangePhase::Done,
        exchange.phase == ExchangePhase::Done ==> exchange_next(exchange, event).1 is Wait,
{
}

/// A peer's own record that cannot be used, because it has no address to dial or is out of
/// date, is no reason to end the exchange; one that is refused for any other reason is.
pub proof fn law_useless_records_are_tolerated(imported: Result<(), DiscoveryBookError>)
    ensures
        tolerable(imported) <==> {
            ||| imported is Ok
            ||| imported == Err::<(), DiscoveryBookError>(
                DiscoveryBookError::NoUsableDirectAddress,
            )
            ||| imported == Err::<(), DiscoveryBookError>(
                DiscoveryBookError::NonDialableDirectAddress,
            )
            ||| imported == Err::<(), DiscoveryBookError>(
                DiscoveryBookError::Record(DiscoveryRecordError::Expired),
            )
            ||| imported == Err::<(), DiscoveryBookError>(
                DiscoveryBookError::Record(DiscoveryRecordError::FarFutureExpiry),
            )
        },
{
    if let Err(DiscoveryBookError::Record(error)) = imported {
        match error {
            DiscoveryRecordError::Expired => {},
            DiscoveryRecordError::FarFutureExpiry => {},
            DiscoveryRecordError::Invalid => {},
        }
    }
}

/// A peer that says hello as itself and asks for peers gets them: its record is imported, a
/// hello is written back, and the sample is written as it asked for it, within the frame cap;
/// the stream is finished after that.
pub proof fn law_questions_are_answered<R>(
    worker: DiscoveryWorker,
    record: ZakuraNodeRecord<R>,
    imported: Result<(), DiscoveryBookError>,
    limit: u16,
    wanted_services: Vec<ZakuraServiceId>,
    exclude_node_ids: Vec<NodeId>,
)
    requires
        worker.phase == WorkerPhase::FirstHello,
        record.node_id == worker.peer,
        imported is Ok || imported->Err_0 == DiscoveryBookError::NoUsableDirectAddress,
    ensures
        ({
            let hello = worker_next(
                worker,
                WorkerEvent::Read(Ok(DiscoveryMessage::Hello { record })),
            );
            let reply = worker_next(hello.0, WorkerEvent::<R>::Imported(imported));
            let serving = worker_next(reply.0, WorkerEvent::<R>::Wrote { ok: true });
            let asked = worker_next(
                serving.0,
                WorkerEvent::<R>::Read(
                    Ok(DiscoveryMessage::GetPeers { limit, wanted_services, exclude_node_ids }),
                ),
            );
            let done = worker_next(asked.0, WorkerEvent::<R>::Wrote { ok: true });
            &&& hello.1 == WorkerAction::ImportSelf(record)
            &&& reply.1 == (WorkerAction::<R>::WriteHello {
                max_frame_bytes: worker.response_frame_cap,
            })
            &&& serving.1 == WorkerAction::<R>::Read
            &&& asked.1 == (WorkerAction::<R>::WritePeers {
                limit,
                wanted_services,
                exclude_node_ids,
                max_frame_bytes: worker.response_frame_cap,
            })
            &&& done.1 == WorkerAction::<R>::Finish
            &&& done.0.phase == WorkerPhase::Done
        }),
{
}

/// What a serving worker makes of each message: it takes one more hello of the peer and one
/// sample of peers and reads on after each, ends quietly with the stream, finishes at a second
/// sample, and resets the stream for everything else.
pub proof fn law_serving_workers_take_what_is_allowed<R>(
    worker: DiscoveryWorker,
    read: Result<DiscoveryMessage<R>, ZakuraHandlerError>,
)
    requires
        worker.phase == WorkerPhase::Serving,
    ensures
        ({
            let (next, action) = worker_next(worker, WorkerEvent::Read(read));
            match read {
                Ok(DiscoveryMessage::Hello { record }) => if record.node_id == worker.peer
                    && !worker.accepted_followup_hello {
                    &&& action == WorkerAction::ImportSelf(record)
                    &&& ({
                        let (on, then) = worker_next(next, WorkerEvent::<R>::Imported(Ok(())));
                        on.phase == WorkerPhase::Serving && on.accepted_followup_hello && then
                            == WorkerAction::<R>::Read
                    })
                } else {
                    action == WorkerAction::<R>::Reset(ZAKURA_CLOSE_BAD_PRELUDE)
                },
                Ok(DiscoveryMessage::Peers { records }) => if worker.imported_peer_batch {
                    action == WorkerAction::<R>::Finish
                } else {
                    &&& action == WorkerAction::ImportPeers(records)
                    &&& ({
                        let (on, then) = worker_next(next, WorkerEvent::<R>::PeersImported);
                        on.phase == WorkerPhase::Serving && on.imported_peer_batch && then
                            == WorkerAction::<R>::Read
                    })
                },
                Ok(DiscoveryMessage::GetPeers { limit, wanted_services, exclude_node_ids }) => action
                    == (WorkerAction::<R>::WritePeers {
                    limit,
                    wanted_services,
                    exclude_node_ids,
                    max_frame_bytes: worker.response_frame_cap,
                }),
                Ok(_) => action == WorkerAction::<R>::Reset(ZAKURA_CLOSE_BAD_PRELUDE),
                Err(error) => action == (if error is Closed {
                    WorkerAction::<R>::End
                } else {
                    WorkerAction::<R>::Reset(ZAKURA_CLOSE_BAD_PRELUDE)
                }),
            }
        }),
{
}

/// A first message that is no hello of the peer itself resets the stream, and so does a write
/// that fails or a record that is refused; a stream that ends before it ends quietly.
pub proof fn law_bad_hellos_are_refused<R>(
    worker: DiscoveryWorker,
    read: Result<DiscoveryMessage<R>, ZakuraHandlerError>,
)
    requires
        worker.phase == WorkerPhase::FirstHello,
    ensures
        ({
            let (next, action) = worker_next(worker, WorkerEvent::Read(read));
            let is_own_hello = read matches Ok(DiscoveryMessage::Hello { record })
                && record.node_id == worker.peer;
            &&& action is ImportSelf <==> is_own_hello
            &&& !is_own_hello ==> next.phase == WorkerPhase::Done
            &&& read matches Err(ZakuraHandlerError::Closed) ==> action == WorkerAction::<R>::End
            &&& !is_own_hello && !(read matches Err(ZakuraHandlerError::Closed)) ==> action
                == WorkerAction::<R>::Reset(ZAKURA_CLOSE_BAD_PRELUDE)
        }),
        forall|phase: WorkerPhase|
            phase == WorkerPhase::HelloReply || phase == WorkerPhase::PeersReply
                ==> (#[trigger] worker_next(
                worker.in_phase(phase),
                WorkerEvent::<R>::Wrote { ok: false },
            )).1 == WorkerAction::<R>::Reset(ZAKURA_CLOSE_BAD_PRELUDE),
        forall|phase: WorkerPhase|
            phase == WorkerPhase::FirstImport || phase == WorkerPhase::FollowupImport
                ==> (#[trigger] worker_next(
                worker.in_phase(phase),
                WorkerEvent::<R>::Imported(Err(DiscoveryBookError::Other)),
            )).1 == WorkerAction::<R>::Reset(ZAKURA_CLOSE_BAD_PRELUDE),
{
}

/// An exchange in which everything works goes from hello to hello, imports the peer's record,
/// asks for as many peers as are wanted and a sample may hold, imports the sample as it came,
/// and succeeds.
pub proof fn law_exchanges_that_work_succeed<R>(
    exchange: DiscoveryExchange,
    record: ZakuraNodeRecord<R>,
    limit: usize,
    records: Vec<ZakuraNodeRecord<R>>,
)
    requires
        exchange.phase == ExchangePhase::Prelude,
        record.node_id == exchange.peer,
    ensures
        ({
            let opened = exchange_next(exchange, ExchangeEvent::<R>::Wrote(Ok(())));
            let spoken = exchange_next(opened.0, ExchangeEvent::<R>::Wrote(Ok(())));
            let heard = exchange_next(
                spoken.0,
                ExchangeEvent::Read(Ok(DiscoveryMessage::Hello { record })),
            );
            let imported = exchange_next(heard.0, ExchangeEvent::<R>::Imported(Ok(())));
            let asking = exchange_next(imported.0, ExchangeEvent::<R>::SampleLimit(limit));
            let asked = exchange_next(asking.0, ExchangeEvent::<R>::Wrote(Ok(())));
            let answered = exchange_next(
                asked.0,
                ExchangeEvent::Read(Ok(DiscoveryMessage::Peers { records })),
            );
            let done = exchange_next(answered.0, ExchangeEvent::<R>::PeersImported);
            &&& opened.1 == ExchangeAction::<R>::WriteHello
            &&& spoken.1 == ExchangeAction::<R>::Read
            &&& heard.1 == ExchangeAction::ImportSelf(record)
            &&& imported.1 == ExchangeAction::<R>::AskSampleLimit
            &&& asking.1 matches ExchangeAction::WriteGetPeers { limit: sent } && sent <= limit
                && sent <= exchange.max_records && (sent == limit || sent == exchange.max_records)
            &&& asked.1 == ExchangeAction::<R>::FinishAndRead
            &&& answered.1 == ExchangeAction::ImportPeers(records)
            &&& done.1 == ExchangeAction::<R>::Succeed
            &&& done.0.phase == ExchangePhase::Done
        }),
{
}

/// A failure to write or read fails the exchange with what went wrong, and so does a hello of
/// another node, a first message that is no hello, or an answer that is no sample.
pub proof fn law_failed_exchanges_say_why<R>(
    exchange: DiscoveryExchange,
    message: DiscoveryMessage<R>,
    error: ZakuraHandlerError,
)
    ensures
        exchange.phase == ExchangePhase::Prelude || exchange.phase == ExchangePhase::Hello
            || exchange.phase == ExchangePhase::Question ==> exchange_next(
            exchange,
            ExchangeEvent::<R>::Wrote(Err(error)),
        ).1 == ExchangeAction::<R>::Fail(error),
        exchange.phase == ExchangePhase::PeerHello || exchange.phase == ExchangePhase::Sample
            ==> exchange_next(exchange, ExchangeEvent::<R>::Read(Err(error))).1
            == ExchangeAction::<R>::Fail(error),
        exchange.phase == ExchangePhase::PeerHello ==> ({
            let action = exchange_next(exchange, ExchangeEvent::Read(Ok(message))).1;
            match message {
                DiscoveryMessage::Hello { record } => if record.node_id == exchange.peer {
                    action == ExchangeAction::ImportSelf(record)
                } else {
                    action == ExchangeAction::<R>::Fail(
                        ZakuraHandlerError::Discovery(DiscoveryFault::HelloIdentity),
                    )
                },
                _ => action == ExchangeAction::<R>::Fail(
                    ZakuraHandlerError::Discovery(DiscoveryFault::MissingHello),
                ),
            }
        }),
        exchange.phase == ExchangePhase::Sample && !(message is Peers) ==> exchange_next(
            exchange,
            ExchangeEvent::Read(Ok(message)),
        ).1 == ExchangeAction::<R>::Fail(
            ZakuraHandlerError::Discovery(DiscoveryFault::UnexpectedMessage),
        ),
        exchange.phase == ExchangePhase::Import ==> exchange_next(
            exchange,
            ExchangeEvent::<R>::Imported(Err(DiscoveryBookError::Other)),
        ).1 == ExchangeAction::<R>::Fail(ZakuraHandlerError::Discovery(DiscoveryFault::Record)),
{
}

} // verus!
