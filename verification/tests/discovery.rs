use iroh::SecretKey;
use zakura::discovery::{
    decode_discovery_frame, discovery_frame, discovery_hello_record, exchange_interval,
    is_advisory_self_record_import_error, read_admitted_discovery_message, DiscoveryBookError,
    DiscoveryExchange, DiscoveryMessage, DiscoveryRecordError, DiscoveryWorker, ExchangeAction,
    ExchangeEvent, WorkerAction, WorkerEvent, ZakuraNodeRecord,
};
use zakura::error::{DiscoveryFault, ResourceCap, ZakuraHandlerError};
use zakura::limits::ZakuraConnectionLimits;
use zakura::node::NodeId;
use zakura::rate::RateBucket;
use zakura::time::{Duration, Timestamp};
use zakura::types::ZakuraPeerId;

type Message = DiscoveryMessage<&'static str>;
type Event = WorkerEvent<&'static str>;

fn limits() -> ZakuraConnectionLimits {
    ZakuraConnectionLimits {
        max_frame_bytes: 1_000,
        max_message_bytes: 100,
        max_open_streams: 16,
        max_inbound_queue_depth: 16,
        idle_timeout: Duration::from_secs(1),
        prelude_timeout: Duration::from_secs(1),
        control_timeout: Duration::from_secs(1),
        stream_open_rate_per_second: 16,
        message_rate_per_second: 128,
    }
}

fn node() -> NodeId {
    NodeId(*SecretKey::from_bytes(&[1; 32]).public().as_bytes())
}

fn stranger() -> NodeId {
    NodeId([8; 32])
}

fn record(node_id: NodeId) -> ZakuraNodeRecord<&'static str> {
    ZakuraNodeRecord {
        node_id,
        body: "body",
    }
}

fn hello(node_id: NodeId) -> Message {
    DiscoveryMessage::Hello {
        record: record(node_id),
    }
}

fn read(message: Message) -> Event {
    WorkerEvent::Read(Ok(message))
}

fn worker() -> DiscoveryWorker {
    DiscoveryWorker::new(&ZakuraPeerId::new(node().0.to_vec()), &limits(), 400)
        .expect("the peer is a node")
}

/// A worker that has exchanged hellos.
fn serving() -> DiscoveryWorker {
    let mut worker = worker();
    assert!(matches!(
        worker.on_event(read(hello(node()))),
        WorkerAction::ImportSelf(_)
    ));
    assert!(matches!(
        worker.on_event(Event::Imported(Ok(()))),
        WorkerAction::WriteHello {
            max_frame_bytes: 400
        }
    ));
    assert!(matches!(
        worker.on_event(Event::Wrote { ok: true }),
        WorkerAction::Read
    ));
    worker
}

#[test]
fn discovery_frames_have_one_type_and_no_flags() {
    let frame = discovery_frame(vec![1]);
    assert_eq!((frame.message_type, frame.flags), (1, 0));
    assert!(decode_discovery_frame(&frame, Some(hello(node()))).is_ok());
    assert_eq!(
        decode_discovery_frame::<()>(&frame, None).err(),
        Some(DiscoveryFault::Malformed)
    );
    let mut flagged = discovery_frame(vec![1]);
    flagged.flags = 2;
    assert_eq!(
        decode_discovery_frame(&flagged, Some(hello(node()))).err(),
        Some(DiscoveryFault::UnexpectedFrame {
            message_type: 1,
            flags: 2
        })
    );
    let mut mistyped = discovery_frame(vec![1]);
    mistyped.message_type = 3;
    assert!(decode_discovery_frame(&mistyped, Some(hello(node()))).is_err());
}

#[test]
fn hello_records_are_about_their_sender() {
    assert!(discovery_hello_record(hello(node()), node()).is_ok());
    assert_eq!(
        discovery_hello_record(hello(stranger()), node()).err(),
        Some(DiscoveryFault::HelloIdentity)
    );
    assert_eq!(
        discovery_hello_record(Message::GetServices, node()).err(),
        Some(DiscoveryFault::MissingHello)
    );
}

#[test]
fn unhelpful_records_are_advisory() {
    for (error, advisory) in [
        (DiscoveryBookError::NoUsableDirectAddress, true),
        (DiscoveryBookError::NonDialableDirectAddress, true),
        (
            DiscoveryBookError::Record(DiscoveryRecordError::Expired),
            true,
        ),
        (
            DiscoveryBookError::Record(DiscoveryRecordError::FarFutureExpiry),
            true,
        ),
        (
            DiscoveryBookError::Record(DiscoveryRecordError::Invalid),
            false,
        ),
        (DiscoveryBookError::Other, false),
    ] {
        assert_eq!(is_advisory_self_record_import_error(error), advisory);
    }
}

#[test]
fn worker_needs_a_node_behind_its_peer() {
    assert!(DiscoveryWorker::new(&ZakuraPeerId::new(vec![1; 31]), &limits(), 400).is_none());
    assert_eq!(worker().response_frame_cap, 400);
}

#[test]
fn worker_resets_a_stream_without_its_own_hello() {
    for message in [hello(stranger()), Message::Services] {
        assert!(matches!(
            worker().on_event(read(message)),
            WorkerAction::Reset(2)
        ));
    }
    assert!(matches!(
        worker().on_event(Event::Read(Err(ZakuraHandlerError::Closed))),
        WorkerAction::End
    ));
    assert!(matches!(
        worker().on_event(Event::Read(Err(ZakuraHandlerError::Oversize))),
        WorkerAction::Reset(2)
    ));
}

#[test]
fn addressless_hello_still_gets_a_peer_sample() {
    let mut worker = worker();
    worker.on_event(read(hello(node())));
    assert!(matches!(
        worker.on_event(Event::Imported(Err(
            DiscoveryBookError::NoUsableDirectAddress
        ))),
        WorkerAction::WriteHello { .. }
    ));
    worker.on_event(Event::Wrote { ok: true });
    let ask = Message::GetPeers {
        limit: 5,
        wanted_services: Vec::new(),
        exclude_node_ids: vec![stranger()],
    };
    match worker.on_event(read(ask)) {
        WorkerAction::WritePeers {
            limit,
            exclude_node_ids,
            max_frame_bytes,
            ..
        } => {
            assert_eq!(limit, 5);
            assert_eq!(exclude_node_ids, vec![stranger()]);
            assert_eq!(max_frame_bytes, 400);
        }
        other => panic!("expected a peer sample, got {other:?}"),
    }
    assert!(matches!(
        worker.on_event(Event::Wrote { ok: true }),
        WorkerAction::Finish
    ));
}

#[test]
fn invalid_hello_is_reset_before_anything_else() {
    let mut worker = worker();
    worker.on_event(read(hello(node())));
    assert!(matches!(
        worker.on_event(Event::Imported(Err(DiscoveryBookError::Record(
            DiscoveryRecordError::Invalid
        )))),
        WorkerAction::Reset(2)
    ));
    assert!(matches!(
        worker.on_event(read(hello(node()))),
        WorkerAction::Wait
    ));
}

#[test]
fn inbound_stream_imports_only_one_peer_batch() {
    let mut worker = serving();
    let batch = || Message::Peers {
        records: vec![record(stranger())],
    };
    assert!(matches!(
        worker.on_event(read(batch())),
        WorkerAction::ImportPeers(_)
    ));
    assert!(matches!(
        worker.on_event(Event::PeersImported),
        WorkerAction::Read
    ));
    assert!(matches!(
        worker.on_event(read(batch())),
        WorkerAction::Finish
    ));
}

#[test]
fn worker_takes_one_more_hello_and_no_service_messages() {
    let mut worker = serving();
    assert!(matches!(
        worker.on_event(read(hello(node()))),
        WorkerAction::ImportSelf(_)
    ));
    assert!(matches!(
        worker.on_event(Event::Imported(Ok(()))),
        WorkerAction::Read
    ));
    assert!(matches!(
        worker.on_event(read(hello(node()))),
        WorkerAction::Reset(2)
    ));
    assert!(matches!(
        serving().on_event(read(hello(stranger()))),
        WorkerAction::Reset(2)
    ));
    for message in [Message::GetServices, Message::Services] {
        assert!(matches!(
            serving().on_event(read(message)),
            WorkerAction::Reset(2)
        ));
    }
}

#[test]
fn outbound_exchange_asks_for_a_bounded_sample() {
    let peer = ZakuraPeerId::new(node().0.to_vec());
    let mut exchange = DiscoveryExchange::new(&peer, 32).expect("the peer is a node");
    assert!(matches!(
        exchange.on_event(ExchangeEvent::<&str>::Wrote(Ok(()))),
        ExchangeAction::WriteHello
    ));
    assert!(matches!(
        exchange.on_event(ExchangeEvent::<&str>::Wrote(Ok(()))),
        ExchangeAction::Read
    ));
    assert!(matches!(
        exchange.on_event(ExchangeEvent::Read(Ok(hello(node())))),
        ExchangeAction::ImportSelf(_)
    ));
    assert!(matches!(
        exchange.on_event(ExchangeEvent::<&str>::Imported(Err(
            DiscoveryBookError::NoUsableDirectAddress
        ))),
        ExchangeAction::AskSampleLimit
    ));
    assert!(matches!(
        exchange.on_event(ExchangeEvent::<&str>::SampleLimit(1_000)),
        ExchangeAction::WriteGetPeers { limit: 32 }
    ));
    assert!(matches!(
        exchange.on_event(ExchangeEvent::<&str>::Wrote(Ok(()))),
        ExchangeAction::FinishAndRead
    ));
    assert!(matches!(
        exchange.on_event(ExchangeEvent::Read(Ok(Message::Peers {
            records: vec![record(stranger())]
        }))),
        ExchangeAction::ImportPeers(_)
    ));
    assert!(matches!(
        exchange.on_event(ExchangeEvent::<&str>::PeersImported),
        ExchangeAction::Succeed
    ));
}

#[test]
fn outbound_exchange_fails_with_its_fault() {
    assert_eq!(
        DiscoveryExchange::new(&ZakuraPeerId::new(vec![1]), 32).err(),
        Some(ZakuraHandlerError::Discovery(DiscoveryFault::PeerNodeId))
    );
    let peer = ZakuraPeerId::new(node().0.to_vec());
    let mut exchange = DiscoveryExchange::new(&peer, 32).expect("the peer is a node");
    exchange.on_event(ExchangeEvent::<&str>::Wrote(Ok(())));
    exchange.on_event(ExchangeEvent::<&str>::Wrote(Ok(())));
    let mut rejected = exchange;
    assert!(matches!(
        rejected.on_event(ExchangeEvent::Read(Ok(hello(stranger())))),
        ExchangeAction::Fail(ZakuraHandlerError::Discovery(DiscoveryFault::HelloIdentity))
    ));
    exchange.on_event(ExchangeEvent::Read(Ok(hello(node()))));
    let mut refused = exchange;
    assert!(matches!(
        refused.on_event(ExchangeEvent::<&str>::Imported(Err(
            DiscoveryBookError::Other
        ))),
        ExchangeAction::Fail(ZakuraHandlerError::Discovery(DiscoveryFault::Record))
    ));
    exchange.on_event(ExchangeEvent::<&str>::Imported(Ok(())));
    assert!(matches!(
        exchange.on_event(ExchangeEvent::<&str>::SampleLimit(3)),
        ExchangeAction::WriteGetPeers { limit: 3 }
    ));
    exchange.on_event(ExchangeEvent::<&str>::Wrote(Ok(())));
    assert!(matches!(
        exchange.on_event(ExchangeEvent::Read(Ok(Message::Services))),
        ExchangeAction::Fail(ZakuraHandlerError::Discovery(
            DiscoveryFault::UnexpectedMessage
        ))
    ));
}

#[test]
fn discovery_messages_are_metered() {
    let now = Timestamp { nanos: 0 };
    let mut bucket = RateBucket::new(1, now);
    assert_eq!(
        read_admitted_discovery_message(101, &limits(), &mut bucket, now),
        Err(ZakuraHandlerError::Oversize)
    );
    assert_eq!(
        read_admitted_discovery_message(100, &limits(), &mut bucket, now),
        Ok(())
    );
    assert_eq!(
        read_admitted_discovery_message(100, &limits(), &mut bucket, now),
        Err(ZakuraHandlerError::ResourceLimit(
            ResourceCap::DiscoveryMessageRate
        ))
    );
    assert_eq!(
        exchange_interval(Duration::from_millis(10)),
        Duration::from_secs(1)
    );
    assert_eq!(
        exchange_interval(Duration::from_secs(7)),
        Duration::from_secs(7)
    );
}
