//! Stream kinds and the admission of inbound streams.

use crate::rate::{self, MessageRateBuckets, RateBucket};
use crate::time::Timestamp;
use crate::wire::StreamPrelude;
use vstd::prelude::*;

verus! {

/// Kind of legacy gossip streams.
pub const LEGACY_GOSSIP_STREAM_KIND: u16 = 2;

/// Kind of legacy request streams.
pub const LEGACY_REQUEST_STREAM_KIND: u16 = 3;

/// Kind of discovery streams.
pub const ZAKURA_STREAM_DISCOVERY: u16 = 4;

/// Kind of the echo/status request streams used to exercise service routing.
pub const ZAKURA_STREAM_TEST_ECHO_STATUS: u16 = 5;

/// The only version of every stream kind that is served.
pub const ZAKURA_STREAM_VERSION_1: u16 = 1;

/// Close code: nothing is wrong.
pub const ZAKURA_CLOSE_NEUTRAL: u32 = 0;

/// Close code: a local resource is exhausted.
pub const ZAKURA_CLOSE_RESOURCE: u32 = 1;

/// Close code: a prelude or frame is malformed.
pub const ZAKURA_CLOSE_BAD_PRELUDE: u32 = 2;

/// Close code: too many streams or messages.
pub const ZAKURA_CLOSE_RATE_LIMIT: u32 = 3;

/// Close code: a message is too large.
pub const ZAKURA_CLOSE_OVERSIZE: u32 = 4;

/// Reset code: a well-formed prelude names an unknown stream kind or an unsupported
/// version.
pub const ZAKURA_CLOSE_UNKNOWN_STREAM: u32 = 5;

/// The label of a stream kind in metrics and traces. The echo/status kind has one of its own
/// only where it is served.
pub open spec fn label_of(stream_kind: u16, echo_served: bool) -> Seq<char> {
    if stream_kind == 0 {
        "control"@
    } else if stream_kind == 1 {
        "request"@
    } else if stream_kind == LEGACY_GOSSIP_STREAM_KIND {
        "gossip"@
    } else if stream_kind == LEGACY_REQUEST_STREAM_KIND {
        "legacy_request"@
    } else if stream_kind == ZAKURA_STREAM_DISCOVERY {
        "discovery"@
    } else if stream_kind == ZAKURA_STREAM_TEST_ECHO_STATUS && echo_served {
        "test_echo_status"@
    } else {
        "unknown"@
    }
}

/// The label of a stream kind in metrics and traces.
pub fn stream_kind_label(stream_kind: u16, echo_served: bool) -> (label: &'static str)
    ensures
        label@ == label_of(stream_kind, echo_served),
{
    if stream_kind == 0 {
        "control"
    } else if stream_kind == 1 {
        "request"
    } else if stream_kind == LEGACY_GOSSIP_STREAM_KIND {
        "gossip"
    } else if stream_kind == LEGACY_REQUEST_STREAM_KIND {
        "legacy_request"
    } else if stream_kind == ZAKURA_STREAM_DISCOVERY {
        "discovery"
    } else if is_test_service_stream_kind(stream_kind, echo_served) {
        "test_echo_status"
    } else {
        "unknown"
    }
}

/// Whether a kind is that of the echo/status service, where it is served.
pub open spec fn is_echo(stream_kind: u16, echo_served: bool) -> bool {
    echo_served && stream_kind == ZAKURA_STREAM_TEST_ECHO_STATUS
}

/// Whether streams of a kind and version are served.
pub open spec fn supported(stream_kind: u16, stream_version: u16, echo_served: bool) -> bool {
    (stream_kind <= LEGACY_REQUEST_STREAM_KIND || stream_kind == ZAKURA_STREAM_DISCOVERY || is_echo(
        stream_kind,
        echo_served,
    )) && stream_version == ZAKURA_STREAM_VERSION_1
}

/// Whether streams of a kind carry one request and its response.
pub open spec fn carries_requests(stream_kind: u16, echo_served: bool) -> bool {
    stream_kind == LEGACY_REQUEST_STREAM_KIND || is_echo(stream_kind, echo_served)
}

/// Whether streams of this kind and version are served. `echo_served` says whether the
/// echo/status service, which only tests use, is there.
pub fn is_supported_stream(stream_kind: u16, stream_version: u16, echo_served: bool) -> (served:
    bool)
    ensures
        served == supported(stream_kind, stream_version, echo_served),
{
    let known_kind = stream_kind <= LEGACY_REQUEST_STREAM_KIND || stream_kind
        == ZAKURA_STREAM_DISCOVERY || is_test_service_stream_kind(stream_kind, echo_served);
    known_kind && stream_version == ZAKURA_STREAM_VERSION_1
}

/// Whether streams of this kind carry one request and its response.
pub fn is_request_stream_kind(stream_kind: u16, echo_served: bool) -> (request: bool)
    ensures
        request == carries_requests(stream_kind, echo_served),
{
    stream_kind == LEGACY_REQUEST_STREAM_KIND || is_test_service_stream_kind(
        stream_kind,
        echo_served,
    )
}

/// Whether this is the kind of the echo/status service, where it is served.
pub fn is_test_service_stream_kind(stream_kind: u16, echo_served: bool) -> (test_service: bool)
    ensures
        test_service == is_echo(stream_kind, echo_served),
{
    echo_served && stream_kind == ZAKURA_STREAM_TEST_ECHO_STATUS
}

/// Why an inbound stream is rejected.
#[derive(Copy, Clone, Debug, PartialEq, Eq, Structural)]
pub enum StreamReject {
    /// Too many streams are open.
    Semaphore,
    /// The prelude is malformed or late.
    Prelude,
    /// The kind is unknown or the version unsupported.
    UnknownKind,
    /// A gossip stream carries a request id.
    GossipRequestId,
    /// A discovery stream carries a request id.
    DiscoveryRequestId,
    /// A request stream carries no request id.
    RequestWithoutId,
    /// Streams are opened too fast.
    OpenRate,
    /// There is no discovery state.
    NoDiscovery,
}

impl StreamReject {
    /// The code that the stream is reset with.
    pub open spec fn code(self) -> u32 {
        match self {
            StreamReject::Semaphore => ZAKURA_CLOSE_RESOURCE,
            StreamReject::Prelude => ZAKURA_CLOSE_BAD_PRELUDE,
            StreamReject::UnknownKind => ZAKURA_CLOSE_UNKNOWN_STREAM,
            StreamReject::GossipRequestId => ZAKURA_CLOSE_BAD_PRELUDE,
            StreamReject::DiscoveryRequestId => ZAKURA_CLOSE_BAD_PRELUDE,
            StreamReject::RequestWithoutId => ZAKURA_CLOSE_BAD_PRELUDE,
            StreamReject::OpenRate => ZAKURA_CLOSE_RATE_LIMIT,
            StreamReject::NoDiscovery => ZAKURA_CLOSE_RESOURCE,
        }
    }

    /// Whether the whole connection ends.
    pub open spec fn ends_connection(self) -> bool {
        self == StreamReject::GossipRequestId || self == StreamReject::RequestWithoutId
    }

    /// The code that the stream is reset with.
    pub fn reset_code(self) -> (code: u32)
        ensures
            code == self.code(),
    {
        match self {
            StreamReject::Semaphore => ZAKURA_CLOSE_RESOURCE,
            StreamReject::Prelude => ZAKURA_CLOSE_BAD_PRELUDE,
            StreamReject::UnknownKind => ZAKURA_CLOSE_UNKNOWN_STREAM,
            StreamReject::GossipRequestId => ZAKURA_CLOSE_BAD_PRELUDE,
            StreamReject::DiscoveryRequestId => ZAKURA_CLOSE_BAD_PRELUDE,
            StreamReject::RequestWithoutId => ZAKURA_CLOSE_BAD_PRELUDE,
            StreamReject::OpenRate => ZAKURA_CLOSE_RATE_LIMIT,
            StreamReject::NoDiscovery => ZAKURA_CLOSE_RESOURCE,
        }
    }

    /// Whether the whole connection ends.
    pub fn cancels_connection(self) -> (cancels: bool)
        ensures
            cancels == self.ends_connection(),
    {
        match self {
            StreamReject::GossipRequestId => true,
            StreamReject::RequestWithoutId => true,
            _ => false,
        }
    }
}

/// The worker that serves an accepted stream.
#[derive(Copy, Clone, Debug, PartialEq, Eq, Structural)]
pub enum StreamService {
    /// The discovery exchange.
    Discovery,
    /// One request and its response.
    Request,
    /// One-way frames for the inbound sink.
    OneWay,
}

/// What is wrong with a prelude, whatever the load.
pub open spec fn prelude_fault(prelude: StreamPrelude, echo_served: bool) -> Option<StreamReject> {
    let kind = prelude.stream_kind;
    if !supported(kind, prelude.stream_version, echo_served) {
        Some(StreamReject::UnknownKind)
    } else if kind == LEGACY_GOSSIP_STREAM_KIND && prelude.request_id is Some {
        Some(StreamReject::GossipRequestId)
    } else if kind == ZAKURA_STREAM_DISCOVERY && prelude.request_id is Some {
        Some(StreamReject::DiscoveryRequestId)
    } else if carries_requests(kind, echo_served) && prelude.request_id is None {
        Some(StreamReject::RequestWithoutId)
    } else {
        None
    }
}

/// The service of a stream kind.
pub open spec fn service_of(stream_kind: u16, echo_served: bool) -> StreamService {
    if stream_kind == ZAKURA_STREAM_DISCOVERY {
        StreamService::Discovery
    } else if carries_requests(stream_kind, echo_served) {
        StreamService::Request
    } else {
        StreamService::OneWay
    }
}

/// The verdict on a stream whose prelude was read, or was malformed or late. An unknown kind
/// or version is refused as such before anything else, a place is asked for next, and what
/// else is wrong with the prelude comes before the rate.
pub open spec fn stream_verdict(
    prelude: Option<StreamPrelude>,
    has_place: bool,
    may_open: bool,
    has_discovery: bool,
    echo_served: bool,
) -> Result<StreamService, StreamReject> {
    if names_unknown(prelude, echo_served) {
        Err(StreamReject::UnknownKind)
    } else if !has_place {
        Err(StreamReject::Semaphore)
    } else {
        match prelude {
            None => Err(StreamReject::Prelude),
            Some(prelude) => match prelude_fault(prelude, echo_served) {
                Some(fault) => Err(fault),
                None => if !may_open {
                    Err(StreamReject::OpenRate)
                } else if service_of(prelude.stream_kind, echo_served) == StreamService::Discovery
                    && !has_discovery {
                    Err(StreamReject::NoDiscovery)
                } else {
                    Ok(service_of(prelude.stream_kind, echo_served))
                },
            },
        }
    }
}

/// Whether a prelude was read and names a kind or version that is not served.
pub open spec fn names_unknown(prelude: Option<StreamPrelude>, echo_served: bool) -> bool {
    prelude matches Some(prelude) && !supported(
        prelude.stream_kind,
        prelude.stream_version,
        echo_served,
    )
}

/// Checks the shape of a prelude: a kind and version that are served, a request id on
/// request streams, and none on gossip and discovery streams.
pub fn check_prelude(prelude: &StreamPrelude, echo_served: bool) -> (fault: Option<StreamReject>)
    ensures
        fault == prelude_fault(*prelude, echo_served),
{
    if !is_supported_stream(prelude.stream_kind, prelude.stream_version, echo_served) {
        return Some(StreamReject::UnknownKind);
    }
    if prelude.stream_kind == LEGACY_GOSSIP_STREAM_KIND && prelude.request_id.is_some() {
        return Some(StreamReject::GossipRequestId);
    }
    if prelude.stream_kind == ZAKURA_STREAM_DISCOVERY && prelude.request_id.is_some() {
        return Some(StreamReject::DiscoveryRequestId);
    }
    if is_request_stream_kind(prelude.stream_kind, echo_served) && prelude.request_id.is_none() {
        return Some(StreamReject::RequestWithoutId);
    }
    None
}

/// Whether a stream gets as far as the open-rate limiter: its prelude is in order and
/// there is a place for it.
pub open spec fn asks_limiter(
    prelude: Option<StreamPrelude>,
    has_place: bool,
    echo_served: bool,
) -> bool {
    prelude matches Some(prelude) && prelude_fault(prelude, echo_served) is None && has_place
}

/// Admits an inbound stream once its prelude was read or failed. `has_place` says whether
/// another stream may be open, `echo_served` whether the echo/status service is there.
///
/// An unknown kind or version is refused before the stream costs a place, and without a
/// place every other stream is turned away, whatever its prelude. A prelude of the wrong
/// shape is rejected before it costs any rate budget. Then the open-rate limiter is asked,
/// the message-rate bucket of the kind is set up, and the service of the kind takes over.
/// Only a stream that is accepted takes a place.
pub fn admit_bi_stream(
    prelude: Option<StreamPrelude>,
    has_place: bool,
    open_limiter: &mut RateBucket,
    message_buckets: &mut MessageRateBuckets,
    message_rate_per_second: u32,
    has_discovery: bool,
    echo_served: bool,
    now: Timestamp,
) -> (verdict: Result<StreamService, StreamReject>)
    requires
        old(open_limiter).wf(),
        old(message_buckets).wf(),
    ensures
        final(open_limiter).wf(),
        final(message_buckets).wf(),
        verdict == stream_verdict(
            prelude,
            has_place,
            old(open_limiter).grants(now),
            has_discovery,
            echo_served,
        ),
        *final(open_limiter) == (if asks_limiter(prelude, has_place, echo_served) {
            old(open_limiter).after_take(now)
        } else {
            *old(open_limiter)
        }),
        final(message_buckets)@ == (if asks_limiter(prelude, has_place, echo_served) && old(
            open_limiter,
        ).grants(now) {
            rate::opened(
                old(message_buckets)@,
                prelude->0.stream_kind,
                message_rate_per_second,
                now,
            )
        } else {
            old(message_buckets)@
        }),
{
    if let Some(prelude) = prelude {
        if !is_supported_stream(prelude.stream_kind, prelude.stream_version, echo_served) {
            return Err(StreamReject::UnknownKind);
        }
    }
    if !has_place {
        return Err(StreamReject::Semaphore);
    }
    let prelude = match prelude {
        Some(prelude) => prelude,
        None => {
            return Err(StreamReject::Prelude);
        },
    };
    match check_prelude(&prelude, echo_served) {
        Some(fault) => {
            return Err(fault);
        },
        None => {},
    }
    if !open_limiter.try_take_at(now) {
        return Err(StreamReject::OpenRate);
    }
    message_buckets.message_bucket_for(prelude.stream_kind, message_rate_per_second, now);
    if prelude.stream_kind == ZAKURA_STREAM_DISCOVERY {
        if !has_discovery {
            return Err(StreamReject::NoDiscovery);
        }
        Ok(StreamService::Discovery)
    } else if is_request_stream_kind(prelude.stream_kind, echo_served) {
        Ok(StreamService::Request)
    } else {
        Ok(StreamService::OneWay)
    }
}

/// Labels and admission agree on what is known: a kind is labelled unknown exactly when no
/// version of it is served.
pub proof fn law_known_kinds_are_labelled(stream_kind: u16, echo_served: bool)
    ensures
        label_of(stream_kind, echo_served) == "unknown"@ <==> forall|version: u16|
            !#[trigger] supported(stream_kind, version, echo_served),
{
    reveal_strlit("control");
    reveal_strlit("request");
    reveal_strlit("gossip");
    reveal_strlit("legacy_request");
    reveal_strlit("discovery");
    reveal_strlit("test_echo_status");
    reveal_strlit("unknown");
    assert("unknown"@[0] == 'u');
    if supported(stream_kind, ZAKURA_STREAM_VERSION_1, echo_served) {
        assert(label_of(stream_kind, echo_served)[0] != 'u');
    } else {
        assert forall|version: u16| !#[trigger] supported(stream_kind, version, echo_served) by {}
    }
}

/// A request stream that is accepted has a request id, and no other kind but plain
/// control and request kinds may carry one.
pub proof fn law_accepted_requests_have_ids(
    prelude: StreamPrelude,
    has_place: bool,
    may_open: bool,
    has_discovery: bool,
    echo_served: bool,
)
    requires
        stream_verdict(Some(prelude), has_place, may_open, has_discovery, echo_served) is Ok,
    ensures
        stream_verdict(Some(prelude), has_place, may_open, has_discovery, echo_served) == Ok::<
            StreamService,
            StreamReject,
        >(StreamService::Request) ==> prelude.request_id is Some,
        prelude.stream_kind == LEGACY_GOSSIP_STREAM_KIND || prelude.stream_kind
            == ZAKURA_STREAM_DISCOVERY ==> prelude.request_id is None,
{
}

/// Only a gossip stream with a request id or a request stream without one ends the
/// connection, and only where there is a place for it; every other bad stream costs just
/// itself.
pub proof fn law_bad_streams_rarely_end_connections(
    prelude: Option<StreamPrelude>,
    has_place: bool,
    may_open: bool,
    has_discovery: bool,
    echo_served: bool,
)
    ensures
        stream_verdict(prelude, has_place, may_open, has_discovery, echo_served) matches Err(reject)
            ==> reject.ends_connection() ==> has_place && prelude is Some && supported(
            prelude->0.stream_kind,
            prelude->0.stream_version,
            echo_served,
        ) && ((prelude->0.stream_kind == LEGACY_GOSSIP_STREAM_KIND && prelude->0.request_id is Some)
            || (carries_requests(prelude->0.stream_kind, echo_served)
            && prelude->0.request_id is None)),
{
}

/// An unknown kind or an unsupported version is refused as such whatever the load, whether
/// or not there is a place: it never gets as far as the limiter, and never ends the
/// connection. Without a place every other stream is turned away with the resource code.
pub proof fn law_unknown_streams_cost_nothing(
    prelude: Option<StreamPrelude>,
    has_place: bool,
    may_open: bool,
    has_discovery: bool,
    echo_served: bool,
)
    ensures
        names_unknown(prelude, echo_served) ==> {
            &&& stream_verdict(prelude, has_place, may_open, has_discovery, echo_served) matches Err(
                reject,
            ) && reject.code() == ZAKURA_CLOSE_UNKNOWN_STREAM && !reject.ends_connection()
            &&& !asks_limiter(prelude, has_place, echo_served)
        },
        !names_unknown(prelude, echo_served) && !has_place ==> {
            &&& stream_verdict(prelude, has_place, may_open, has_discovery, echo_served) matches Err(
                reject,
            ) && reject.code() == ZAKURA_CLOSE_RESOURCE && !reject.ends_connection()
            &&& !asks_limiter(prelude, has_place, echo_served)
        },
{
}

/// Whether a kind is known to every node, or is that of the echo/status service on a node
/// that has it.
pub open spec fn is_known_kind(kind: u16, echo_served: bool) -> bool {
    kind <= 3 || kind == ZAKURA_STREAM_DISCOVERY || (kind == ZAKURA_STREAM_TEST_ECHO_STATUS
        && echo_served)
}

/// An accepted stream goes to the service of its kind: a legacy request is answered whether
/// or not the echo/status service is there, discovery goes to discovery, and gossip and all
/// else is one-way.
pub proof fn law_accepted_streams_go_to_their_service(
    prelude: StreamPrelude,
    has_place: bool,
    may_open: bool,
    has_discovery: bool,
    echo_served: bool,
)
    ensures
        stream_verdict(Some(prelude), has_place, may_open, has_discovery, echo_served) matches Ok(
            service,
        ) ==> {
            let kind = prelude.stream_kind;
            &&& kind == LEGACY_REQUEST_STREAM_KIND ==> service == StreamService::Request
            &&& kind == ZAKURA_STREAM_DISCOVERY ==> service == StreamService::Discovery
            &&& kind == LEGACY_GOSSIP_STREAM_KIND ==> service == StreamService::OneWay
            &&& kind == ZAKURA_STREAM_TEST_ECHO_STATUS ==> service == StreamService::Request
            &&& kind < LEGACY_GOSSIP_STREAM_KIND ==> service == StreamService::OneWay
        },
{
}

/// A stream is accepted exactly where everything is in order: a known kind of the one
/// version, an id on requests and none on gossip and discovery, a place, open-rate budget,
/// and for discovery its state.
pub proof fn law_streams_in_order_are_accepted(
    prelude: StreamPrelude,
    has_place: bool,
    may_open: bool,
    has_discovery: bool,
    echo_served: bool,
)
    ensures
        stream_verdict(Some(prelude), has_place, may_open, has_discovery, echo_served) is Ok <==> {
            let kind = prelude.stream_kind;
            &&& has_place
            &&& may_open
            &&& prelude.stream_version == 1
            &&& is_known_kind(kind, echo_served)
            &&& kind == LEGACY_REQUEST_STREAM_KIND || kind == ZAKURA_STREAM_TEST_ECHO_STATUS
                ==> prelude.request_id is Some
            &&& kind == LEGACY_GOSSIP_STREAM_KIND || kind == ZAKURA_STREAM_DISCOVERY
                ==> prelude.request_id is None
            &&& kind == ZAKURA_STREAM_DISCOVERY ==> has_discovery
        },
        stream_verdict(None, has_place, may_open, has_discovery, echo_served) is Err,
{
}

/// Why a stream is turned away: an unknown kind or version first, no place next, a prelude
/// that was not read or names an id where none belongs or none where one does next, the rate
/// after that and missing discovery state last.
pub proof fn law_rejected_streams_are_told_why(
    prelude: Option<StreamPrelude>,
    has_place: bool,
    may_open: bool,
    has_discovery: bool,
    echo_served: bool,
)
    ensures
        stream_verdict(prelude, has_place, may_open, has_discovery, echo_served) matches Err(reject)
            ==> {
            let kind = prelude->0.stream_kind;
            let known = prelude is None || (is_known_kind(kind, echo_served)
                && prelude->0.stream_version == 1);
            let wants_id = kind == LEGACY_REQUEST_STREAM_KIND || kind
                == ZAKURA_STREAM_TEST_ECHO_STATUS;
            match reject {
                StreamReject::UnknownKind => !known,
                StreamReject::Semaphore => known && !has_place,
                StreamReject::Prelude => prelude is None && has_place,
                StreamReject::GossipRequestId => known && has_place && kind
                    == LEGACY_GOSSIP_STREAM_KIND && prelude->0.request_id is Some,
                StreamReject::DiscoveryRequestId => known && has_place && kind
                    == ZAKURA_STREAM_DISCOVERY && prelude->0.request_id is Some,
                StreamReject::RequestWithoutId => known && has_place && wants_id
                    && prelude->0.request_id is None,
                StreamReject::OpenRate => known && has_place && !may_open && (wants_id
                    ==> prelude->0.request_id is Some) && (kind == LEGACY_GOSSIP_STREAM_KIND || kind
                    == ZAKURA_STREAM_DISCOVERY ==> prelude->0.request_id is None),
                StreamReject::NoDiscovery => known && has_place && may_open && !has_discovery && kind
                    == ZAKURA_STREAM_DISCOVERY && prelude->0.request_id is None,
            }
        },
{
}

/// What a rejected peer sees: the code of each reject, and whether its connection goes on.
pub proof fn law_rejects_have_their_code(reject: StreamReject)
    ensures
        reject == StreamReject::UnknownKind ==> reject.code() == ZAKURA_CLOSE_UNKNOWN_STREAM,
        reject == StreamReject::OpenRate ==> reject.code() == ZAKURA_CLOSE_RATE_LIMIT,
        reject == StreamReject::Semaphore || reject == StreamReject::NoDiscovery ==> reject.code()
            == ZAKURA_CLOSE_RESOURCE,
        reject == StreamReject::Prelude || reject == StreamReject::GossipRequestId || reject
            == StreamReject::DiscoveryRequestId || reject == StreamReject::RequestWithoutId
            ==> reject.code() == ZAKURA_CLOSE_BAD_PRELUDE,
        reject.ends_connection() <==> reject == StreamReject::GossipRequestId || reject
            == StreamReject::RequestWithoutId,
{
}

/// Only a stream that gets as far as the rate is charged for it: one with a place whose
/// prelude is in order.
pub proof fn law_only_streams_in_order_are_charged(
    prelude: Option<StreamPrelude>,
    has_place: bool,
    echo_served: bool,
)
    ensures
        asks_limiter(prelude, has_place, echo_served) <==> stream_verdict(
            prelude,
            has_place,
            true,
            true,
            echo_served,
        ) is Ok,
{
}

} // verus!
