//! Local ceilings and negotiated connection limits.

use crate::error::ZakuraHandlerError;
use crate::time::Duration;
use vstd::prelude::*;

verus! {

/// Default number of concurrent connections.
pub const DEFAULT_ZAKURA_MAX_CONNECTIONS: usize = 32;

/// Default number of concurrent control handshakes.
pub const DEFAULT_ZAKURA_MAX_PENDING_HANDSHAKES: usize = 8;

/// Default stream-open rate per connection.
pub const DEFAULT_ZAKURA_STREAM_OPEN_RATE_PER_SECOND: u32 = 16;

/// Default message rate per stream kind and connection.
pub const DEFAULT_ZAKURA_MESSAGE_RATE_PER_SECOND: u32 = 128;

/// Default timeout of a stream prelude, in seconds.
pub const DEFAULT_ZAKURA_PRELUDE_TIMEOUT_SECS: u64 = 3;

/// Default timeout of one control read or write, in seconds.
pub const DEFAULT_ZAKURA_CONTROL_TIMEOUT_SECS: u64 = 10;

/// Default QUIC idle timeout, in seconds.
pub const DEFAULT_ZAKURA_QUIC_IDLE_TIMEOUT_SECS: u64 = 150;

/// Default QUIC keepalive interval, in seconds.
pub const DEFAULT_ZAKURA_KEEP_ALIVE_INTERVAL_SECS: u64 = 10;

/// QUIC stream receive window.
pub const DEFAULT_ZAKURA_STREAM_RECEIVE_WINDOW: u32 = 512 * 1024;

/// QUIC connection receive window.
pub const DEFAULT_ZAKURA_RECEIVE_WINDOW: u32 = 2 * 1024 * 1024;

/// QUIC send window.
pub const DEFAULT_ZAKURA_SEND_WINDOW: u64 = 2 * 1024 * 1024;

/// The most concurrent bidirectional streams offered to the transport.
pub const MAX_TRANSPORT_BIDI_STREAMS: u16 = 64;

/// The least connections that discovery leaves free for other peers.
pub const DEFAULT_DISCOVERY_CONNECTION_HEADROOM: usize = 4;

/// Endpoint and handler configuration.
#[derive(Debug)]
pub struct ZakuraConfig {
    /// Bootstrap peers as `node_id@direct_addr`.
    pub bootstrap_peers: Vec<String>,
    /// Address that the endpoint binds to, as text.
    pub listen_addr: Option<String>,
    /// Total concurrent connections, inbound plus outbound.
    pub max_connections: usize,
    /// Connections concurrently running the control handshake.
    pub max_pending_handshakes: usize,
    /// New streams per second admitted per connection.
    pub stream_open_rate_per_second: u32,
    /// Messages per second admitted per stream kind on a connection.
    pub message_rate_per_second: u32,
    /// Directory for trace tables.
    pub trace_dir: Option<String>,
}

impl Default for ZakuraConfig {
    fn default() -> (config: Self)
        ensures
            config.bootstrap_peers@.len() == 0,
            config.listen_addr is None,
            config.max_connections == DEFAULT_ZAKURA_MAX_CONNECTIONS,
            config.max_pending_handshakes == DEFAULT_ZAKURA_MAX_PENDING_HANDSHAKES,
            config.stream_open_rate_per_second == DEFAULT_ZAKURA_STREAM_OPEN_RATE_PER_SECOND,
            config.message_rate_per_second == DEFAULT_ZAKURA_MESSAGE_RATE_PER_SECOND,
            config.trace_dir is None,
    {
        ZakuraConfig {
            bootstrap_peers: Vec::new(),
            listen_addr: None,
            max_connections: DEFAULT_ZAKURA_MAX_CONNECTIONS,
            max_pending_handshakes: DEFAULT_ZAKURA_MAX_PENDING_HANDSHAKES,
            stream_open_rate_per_second: DEFAULT_ZAKURA_STREAM_OPEN_RATE_PER_SECOND,
            message_rate_per_second: DEFAULT_ZAKURA_MESSAGE_RATE_PER_SECOND,
            trace_dir: None,
        }
    }
}

/// The handshake policy of a network.
#[derive(Copy, Clone, Debug, PartialEq, Eq)]
pub struct ZakuraHandshakeConfig {
    /// Oldest protocol version this node speaks.
    pub zakura_protocol_min: u16,
    /// Newest protocol version this node speaks.
    pub zakura_protocol_max: u16,
    /// The network.
    pub network_id: u32,
    /// The chain.
    pub chain_id: [u8; 32],
    /// Largest control payload.
    pub max_control_frame_bytes: u32,
    /// Largest reassembled message.
    pub max_message_bytes: u32,
    /// Most concurrent streams.
    pub max_open_streams: u16,
    /// Deepest inbound queue.
    pub max_inbound_queue_depth: u16,
    /// Capabilities this node supports.
    pub supported_capabilities: u64,
    /// Channels this node supports.
    pub supported_channels: u64,
}

/// Network configuration, as far as the endpoint reads it.
#[derive(Debug)]
pub struct Config {
    /// Whether the endpoint runs at all.
    pub v2_p2p: bool,
    /// Endpoint configuration.
    pub zakura: ZakuraConfig,
    /// Handshake policy of the active network.
    pub handshake: ZakuraHandshakeConfig,
    /// Most connections from one IP address.
    pub max_connections_per_ip: usize,
}

/// Limits on the wire.
#[derive(Copy, Clone, Debug, PartialEq, Eq, Structural)]
pub struct ZakuraLimits {
    /// Maximum encoded frame bytes.
    pub max_frame_bytes: u32,
    /// Maximum reassembled message bytes.
    pub max_message_bytes: u32,
    /// Maximum concurrent streams.
    pub max_open_streams: u16,
    /// Inbound queue depth.
    pub max_inbound_queue_depth: u16,
    /// Idle timeout in milliseconds.
    pub idle_timeout_millis: u32,
}

/// Limits that a hello advertises.
pub type ZakuraInitialLimits = ZakuraLimits;

/// Limits that an acknowledgement accepts.
pub type ZakuraAcceptedLimits = ZakuraLimits;

/// Hard local ceilings enforced by the endpoint and handler.
#[derive(Copy, Clone, Debug, PartialEq, Eq, Structural)]
pub struct ZakuraLocalLimits {
    /// Total concurrent connection cap.
    pub max_connections: usize,
    /// Concurrent control handshakes cap.
    pub max_pending_handshakes: usize,
    /// QUIC idle timeout.
    pub quic_idle_timeout: Duration,
    /// QUIC keepalive interval.
    pub keep_alive_interval: Duration,
    /// Stream prelude read timeout.
    pub prelude_timeout: Duration,
    /// Control handshake read and write timeout.
    pub control_timeout: Duration,
    /// Per-connection stream-open rate.
    pub stream_open_rate_per_second: u32,
    /// Per-stream-kind message rate.
    pub message_rate_per_second: u32,
    /// Maximum frame bytes accepted locally.
    pub max_frame_bytes: u32,
    /// Maximum reassembled message bytes accepted locally.
    pub max_message_bytes: u32,
    /// Maximum concurrent admitted streams per connection.
    pub max_open_streams: u16,
    /// Maximum inbound queue depth per stream kind.
    pub max_inbound_queue_depth: u16,
}

/// Per-connection limits after negotiation and clamping.
#[derive(Copy, Clone, Debug, PartialEq, Eq, Structural)]
pub struct ZakuraConnectionLimits {
    /// Maximum encoded frame bytes.
    pub max_frame_bytes: u32,
    /// Maximum reassembled message bytes.
    pub max_message_bytes: u32,
    /// Maximum concurrent streams.
    pub max_open_streams: u16,
    /// Bounded inbound queue depth.
    pub max_inbound_queue_depth: u16,
    /// Application idle timeout.
    pub idle_timeout: Duration,
    /// Stream prelude read timeout.
    pub prelude_timeout: Duration,
    /// Control handshake timeout.
    pub control_timeout: Duration,
    /// Per-connection stream-open rate.
    pub stream_open_rate_per_second: u32,
    /// Per-stream-kind message rate.
    pub message_rate_per_second: u32,
}

/// Settings of the QUIC transport.
#[derive(Copy, Clone, Debug, PartialEq, Eq, Structural)]
pub struct TransportSettings {
    /// Concurrent bidirectional streams the peer may open.
    pub max_concurrent_bidi_streams: u32,
    /// Concurrent unidirectional streams the peer may open.
    pub max_concurrent_uni_streams: u32,
    /// Receive window of one stream.
    pub stream_receive_window: u32,
    /// Receive window of the connection.
    pub receive_window: u32,
    /// Send window of the connection.
    pub send_window: u64,
    /// Idle timeout in milliseconds.
    pub max_idle_timeout_millis: u128,
    /// Keepalive interval.
    pub keep_alive_interval: Duration,
    /// Receive buffer for datagrams; none turns them off.
    pub datagram_receive_buffer_size: Option<usize>,
    /// Send buffer for datagrams.
    pub datagram_send_buffer_size: usize,
}

/// `value`, but at least one.
pub open spec fn at_least_one(value: int) -> int {
    if value >= 1 {
        value
    } else {
        1
    }
}

/// The smaller of two values.
pub open spec fn spec_min(a: int, b: int) -> int {
    if a <= b {
        a
    } else {
        b
    }
}

/// `min(a, b)`, but at least one.
fn clamp_u32(a: u32, b: u32) -> (clamped: u32)
    ensures
        clamped == at_least_one(spec_min(a as int, b as int)),
{
    let least: u32 = if a <= b {
        a
    } else {
        b
    };
    if least >= 1 {
        least
    } else {
        1
    }
}

/// `min(a, b)`, but at least one.
fn clamp_u16(a: u16, b: u16) -> (clamped: u16)
    ensures
        clamped == at_least_one(spec_min(a as int, b as int)),
{
    let least: u16 = if a <= b {
        a
    } else {
        b
    };
    if least >= 1 {
        least
    } else {
        1
    }
}

/// The smaller of two counts.
fn min_u32(a: u32, b: u32) -> (least: u32)
    ensures
        least == spec_min(a as int, b as int),
{
    if a <= b {
        a
    } else {
        b
    }
}

/// The smaller of two counts.
fn min_u16(a: u16, b: u16) -> (least: u16)
    ensures
        least == spec_min(a as int, b as int),
{
    if a <= b {
        a
    } else {
        b
    }
}

/// `value`, but at least one.
fn max_one_usize(value: usize) -> (result: usize)
    ensures
        result == at_least_one(value as int),
{
    if value >= 1 {
        value
    } else {
        1
    }
}

/// `value`, but at least one.
fn max_one_u32(value: u32) -> (result: u32)
    ensures
        result == at_least_one(value as int),
{
    if value >= 1 {
        value
    } else {
        1
    }
}

/// Milliseconds below the idle timeout `timeout`: one less, at least zero.
pub open spec fn millis_below(timeout: Duration) -> int {
    if timeout.spec_millis() >= 1 {
        timeout.spec_millis() - 1
    } else {
        0
    }
}

/// Whether `limits` are the local limits of a configuration: every configured cap and rate
/// taken for at least one, the sizes of the handshake policy and the default timeouts.
pub open spec fn configured(config: Config, limits: ZakuraLocalLimits) -> bool {
    &&& limits.max_connections == at_least_one(config.zakura.max_connections as int)
    &&& limits.max_pending_handshakes == at_least_one(
                config.zakura.max_pending_handshakes as int,
            )
    &&& limits.quic_idle_timeout.nanos == DEFAULT_ZAKURA_QUIC_IDLE_TIMEOUT_SECS
                * crate::time::NANOS_PER_SEC
    &&& limits.keep_alive_interval.nanos == DEFAULT_ZAKURA_KEEP_ALIVE_INTERVAL_SECS
                * crate::time::NANOS_PER_SEC
    &&& limits.prelude_timeout.nanos == DEFAULT_ZAKURA_PRELUDE_TIMEOUT_SECS
                * crate::time::NANOS_PER_SEC
    &&& limits.control_timeout.nanos == DEFAULT_ZAKURA_CONTROL_TIMEOUT_SECS
                * crate::time::NANOS_PER_SEC
    &&& limits.stream_open_rate_per_second == at_least_one(
                config.zakura.stream_open_rate_per_second as int,
            )
    &&& limits.message_rate_per_second == at_least_one(
                config.zakura.message_rate_per_second as int,
            )
    &&& limits.max_frame_bytes == config.handshake.max_control_frame_bytes
    &&& limits.max_message_bytes == config.handshake.max_message_bytes
    &&& limits.max_open_streams == config.handshake.max_open_streams
    &&& limits.max_inbound_queue_depth == config.handshake.max_inbound_queue_depth
}

impl ZakuraLocalLimits {
    /// Local limits from network configuration and handshake policy. Every configured
    /// cap and rate is taken for at least one.
    pub fn from_config(config: &Config) -> (limits: Self)
        ensures
            configured(*config, limits),
    {
        ZakuraLocalLimits {
            max_connections: max_one_usize(config.zakura.max_connections),
            max_pending_handshakes: max_one_usize(config.zakura.max_pending_handshakes),
            quic_idle_timeout: Duration::from_secs(DEFAULT_ZAKURA_QUIC_IDLE_TIMEOUT_SECS),
            keep_alive_interval: Duration::from_secs(DEFAULT_ZAKURA_KEEP_ALIVE_INTERVAL_SECS),
            prelude_timeout: Duration::from_secs(DEFAULT_ZAKURA_PRELUDE_TIMEOUT_SECS),
            control_timeout: Duration::from_secs(DEFAULT_ZAKURA_CONTROL_TIMEOUT_SECS),
            stream_open_rate_per_second: max_one_u32(config.zakura.stream_open_rate_per_second),
            message_rate_per_second: max_one_u32(config.zakura.message_rate_per_second),
            max_frame_bytes: config.handshake.max_control_frame_bytes,
            max_message_bytes: config.handshake.max_message_bytes,
            max_open_streams: config.handshake.max_open_streams,
            max_inbound_queue_depth: config.handshake.max_inbound_queue_depth,
        }
    }

    /// The application idle timeout of a connection that negotiated `millis`: below the
    /// QUIC idle timeout, and at least a millisecond.
    pub open spec fn clamped_idle_millis(self, millis: u32) -> int {
        at_least_one(
            spec_min(
                millis as int,
                millis_below(self.quic_idle_timeout) % 0x1_0000_0000_0000_0000int,
            ),
        )
    }

    /// Negotiated limits, clamped to the local ceilings and to at least one.
    pub open spec fn clamped(self, negotiated: ZakuraAcceptedLimits) -> ZakuraConnectionLimits {
        ZakuraConnectionLimits {
            max_frame_bytes: at_least_one(
                spec_min(negotiated.max_frame_bytes as int, self.max_frame_bytes as int),
            ) as u32,
            max_message_bytes: at_least_one(
                spec_min(negotiated.max_message_bytes as int, self.max_message_bytes as int),
            ) as u32,
            max_open_streams: at_least_one(
                spec_min(negotiated.max_open_streams as int, self.max_open_streams as int),
            ) as u16,
            max_inbound_queue_depth: at_least_one(
                spec_min(
                    negotiated.max_inbound_queue_depth as int,
                    self.max_inbound_queue_depth as int,
                ),
            ) as u16,
            idle_timeout: Duration {
                nanos: (self.clamped_idle_millis(negotiated.idle_timeout_millis)
                    * crate::time::NANOS_PER_MILLI) as u128,
            },
            prelude_timeout: self.prelude_timeout,
            control_timeout: self.control_timeout,
            stream_open_rate_per_second: self.stream_open_rate_per_second,
            message_rate_per_second: self.message_rate_per_second,
        }
    }

    /// Clamps negotiated limits to the local ceilings, and to at least one.
    pub fn clamp(&self, negotiated: &ZakuraAcceptedLimits) -> (limits: ZakuraConnectionLimits)
        ensures
            limits == self.clamped(*negotiated),
    {
        let below: u128 = self.quic_idle_timeout.as_millis().saturating_sub(1);
        let cap: u64 = #[verifier::truncate] (below as u64);
        assert(cap == below % 0x1_0000_0000_0000_0000u128) by (bit_vector)
            requires
                cap == below as u64,
        ;
        let mut idle_millis: u64 = negotiated.idle_timeout_millis as u64;
        if cap < idle_millis {
            idle_millis = cap;
        }
        if idle_millis < 1 {
            idle_millis = 1;
        }
        ZakuraConnectionLimits {
            max_frame_bytes: clamp_u32(negotiated.max_frame_bytes, self.max_frame_bytes),
            max_message_bytes: clamp_u32(negotiated.max_message_bytes, self.max_message_bytes),
            max_open_streams: clamp_u16(negotiated.max_open_streams, self.max_open_streams),
            max_inbound_queue_depth: clamp_u16(
                negotiated.max_inbound_queue_depth,
                self.max_inbound_queue_depth,
            ),
            idle_timeout: Duration::from_millis(idle_millis),
            prelude_timeout: self.prelude_timeout,
            control_timeout: self.control_timeout,
            stream_open_rate_per_second: self.stream_open_rate_per_second,
            message_rate_per_second: self.message_rate_per_second,
        }
    }

    /// The limits advertised in a control hello.
    pub open spec fn spec_initial_limits(self) -> ZakuraInitialLimits {
        ZakuraLimits {
            max_frame_bytes: self.max_frame_bytes,
            max_message_bytes: self.max_message_bytes,
            max_open_streams: self.max_open_streams,
            max_inbound_queue_depth: self.max_inbound_queue_depth,
            idle_timeout_millis: (millis_below(self.quic_idle_timeout) % 0x1_0000_0000int) as u32,
        }
    }

    /// The limits advertised in a control hello.
    pub fn initial_limits(&self) -> (limits: ZakuraInitialLimits)
        ensures
            limits == self.spec_initial_limits(),
    {
        let below: u128 = self.quic_idle_timeout.as_millis().saturating_sub(1);
        let idle_timeout_millis: u32 = #[verifier::truncate] (below as u32);
        assert(idle_timeout_millis == below % 0x1_0000_0000u128) by (bit_vector)
            requires
                idle_timeout_millis == below as u32,
        ;
        ZakuraLimits {
            max_frame_bytes: self.max_frame_bytes,
            max_message_bytes: self.max_message_bytes,
            max_open_streams: self.max_open_streams,
            max_inbound_queue_depth: self.max_inbound_queue_depth,
            idle_timeout_millis,
        }
    }

    /// The limits that are accepted of a peer's hello: the smaller of both sides.
    pub open spec fn accepted(self, remote: ZakuraInitialLimits) -> ZakuraAcceptedLimits {
        ZakuraLimits {
            max_frame_bytes: spec_min(
                remote.max_frame_bytes as int,
                self.max_frame_bytes as int,
            ) as u32,
            max_message_bytes: spec_min(
                remote.max_message_bytes as int,
                self.max_message_bytes as int,
            ) as u32,
            max_open_streams: spec_min(
                remote.max_open_streams as int,
                self.max_open_streams as int,
            ) as u16,
            max_inbound_queue_depth: spec_min(
                remote.max_inbound_queue_depth as int,
                self.max_inbound_queue_depth as int,
            ) as u16,
            idle_timeout_millis: spec_min(
                remote.idle_timeout_millis as int,
                self.spec_initial_limits().idle_timeout_millis as int,
            ) as u32,
        }
    }

    /// The limits that are accepted of a peer's hello: the smaller of both sides.
    pub fn accepted_limits_for(&self, remote: &ZakuraInitialLimits) -> (limits:
        ZakuraAcceptedLimits)
        ensures
            limits == self.accepted(*remote),
    {
        ZakuraLimits {
            max_frame_bytes: min_u32(remote.max_frame_bytes, self.max_frame_bytes),
            max_message_bytes: min_u32(remote.max_message_bytes, self.max_message_bytes),
            max_open_streams: min_u16(remote.max_open_streams, self.max_open_streams),
            max_inbound_queue_depth: min_u16(
                remote.max_inbound_queue_depth,
                self.max_inbound_queue_depth,
            ),
            idle_timeout_millis: min_u32(
                remote.idle_timeout_millis,
                self.initial_limits().idle_timeout_millis,
            ),
        }
    }

    /// The QUIC transport settings that match these limits.
    pub open spec fn spec_transport_config(self) -> TransportSettings {
        TransportSettings {
            max_concurrent_bidi_streams: spec_min(
                self.max_open_streams as int,
                MAX_TRANSPORT_BIDI_STREAMS as int,
            ) as u32,
            max_concurrent_uni_streams: 0,
            stream_receive_window: DEFAULT_ZAKURA_STREAM_RECEIVE_WINDOW,
            receive_window: DEFAULT_ZAKURA_RECEIVE_WINDOW,
            send_window: DEFAULT_ZAKURA_SEND_WINDOW,
            max_idle_timeout_millis: self.quic_idle_timeout.spec_millis() as u128,
            keep_alive_interval: self.keep_alive_interval,
            datagram_receive_buffer_size: None,
            datagram_send_buffer_size: 0,
        }
    }

    /// The QUIC transport settings that match these limits.
    pub fn transport_config(&self) -> (settings: TransportSettings)
        ensures
            settings == self.spec_transport_config(),
    {
        TransportSettings {
            max_concurrent_bidi_streams: min_u16(
                self.max_open_streams,
                MAX_TRANSPORT_BIDI_STREAMS,
            ) as u32,
            max_concurrent_uni_streams: 0,
            stream_receive_window: DEFAULT_ZAKURA_STREAM_RECEIVE_WINDOW,
            receive_window: DEFAULT_ZAKURA_RECEIVE_WINDOW,
            send_window: DEFAULT_ZAKURA_SEND_WINDOW,
            max_idle_timeout_millis: self.quic_idle_timeout.as_millis(),
            keep_alive_interval: self.keep_alive_interval,
            datagram_receive_buffer_size: None,
            datagram_send_buffer_size: 0,
        }
    }
}

/// Whether the timeouts of `limits` are ordered: keepalives come before the QUIC idle
/// timeout, and the advertised application timeout stays below it.
pub open spec fn idle_invariant(limits: ZakuraLocalLimits) -> bool {
    limits.keep_alive_interval.nanos < limits.quic_idle_timeout.nanos
        && limits.spec_initial_limits().idle_timeout_millis
        < limits.quic_idle_timeout.spec_millis()
}

/// Checks the order of the timeouts.
pub fn validate_idle_invariant(limits: &ZakuraLocalLimits) -> (result: Result<
    (),
    ZakuraHandlerError,
>)
    ensures
        result == (if idle_invariant(*limits) {
            Ok::<(), ZakuraHandlerError>(())
        } else {
            Err(ZakuraHandlerError::InvalidLocalLimits)
        }),
{
    if limits.keep_alive_interval.nanos >= limits.quic_idle_timeout.nanos {
        return Err(ZakuraHandlerError::InvalidLocalLimits);
    }
    if limits.initial_limits().idle_timeout_millis as u128 >= limits.quic_idle_timeout.as_millis() {
        return Err(ZakuraHandlerError::InvalidLocalLimits);
    }
    Ok(())
}

/// The local limits of every configuration have their timeouts in order.
pub proof fn law_configured_timeouts_are_ordered(config: Config, limits: ZakuraLocalLimits)
    requires
        configured(config, limits),
    ensures
        idle_invariant(limits),
{
}

/// The connections that discovery leaves free: the default, but at least one for each
/// bootstrap peer.
pub fn effective_discovery_connection_headroom(bootstrap_peer_count: usize) -> (headroom: usize)
    ensures
        headroom == (if bootstrap_peer_count > DEFAULT_DISCOVERY_CONNECTION_HEADROOM {
            bootstrap_peer_count
        } else {
            DEFAULT_DISCOVERY_CONNECTION_HEADROOM
        }),
{
    if bootstrap_peer_count > DEFAULT_DISCOVERY_CONNECTION_HEADROOM {
        bootstrap_peer_count
    } else {
        DEFAULT_DISCOVERY_CONNECTION_HEADROOM
    }
}

/// Negotiation never exceeds a local ceiling of at least one, nor what the peer asked
/// for where that is at least one, and never yields a limit of zero.
pub proof fn law_clamped_limits_within_ceilings(
    local: ZakuraLocalLimits,
    negotiated: ZakuraAcceptedLimits,
)
    ensures
        ({
            let limits = local.clamped(negotiated);
            &&& limits.max_frame_bytes >= 1
            &&& limits.max_message_bytes >= 1
            &&& limits.max_open_streams >= 1
            &&& limits.max_inbound_queue_depth >= 1
            &&& limits.idle_timeout.nanos >= crate::time::NANOS_PER_MILLI
            &&& local.max_frame_bytes >= 1 ==> limits.max_frame_bytes <= local.max_frame_bytes
            &&& local.max_message_bytes >= 1 ==> limits.max_message_bytes
                <= local.max_message_bytes
            &&& local.max_open_streams >= 1 ==> limits.max_open_streams <= local.max_open_streams
            &&& local.max_inbound_queue_depth >= 1 ==> limits.max_inbound_queue_depth
                <= local.max_inbound_queue_depth
            &&& negotiated.max_frame_bytes >= 1 ==> limits.max_frame_bytes
                <= negotiated.max_frame_bytes
            &&& negotiated.max_message_bytes >= 1 ==> limits.max_message_bytes
                <= negotiated.max_message_bytes
            &&& negotiated.max_open_streams >= 1 ==> limits.max_open_streams
                <= negotiated.max_open_streams
            &&& negotiated.max_inbound_queue_depth >= 1 ==> limits.max_inbound_queue_depth
                <= negotiated.max_inbound_queue_depth
        }),
{
}

/// A connection's application idle timeout always stays below a QUIC idle timeout of two
/// milliseconds or more.
pub proof fn law_idle_timeout_below_quic_timeout(
    local: ZakuraLocalLimits,
    negotiated: ZakuraAcceptedLimits,
)
    requires
        local.quic_idle_timeout.spec_millis() >= 2,
    ensures
        1 <= local.clamped_idle_millis(negotiated.idle_timeout_millis)
            < local.quic_idle_timeout.spec_millis(),
        local.clamped(negotiated).idle_timeout.nanos < local.quic_idle_timeout.nanos,
{
    let q = local.quic_idle_timeout.spec_millis();
    let below = millis_below(local.quic_idle_timeout);
    assert(below % 0x1_0000_0000_0000_0000int <= below);
    assert(q * crate::time::NANOS_PER_MILLI <= local.quic_idle_timeout.nanos) by {
        vstd::arithmetic::div_mod::lemma_fundamental_div_mod(
            local.quic_idle_timeout.nanos as int,
            crate::time::NANOS_PER_MILLI as int,
        );
    }
}

/// Both sides of a handshake are respected: what is accepted exceeds neither the
/// peer's hello nor the limits this node advertises, and accepting again changes
/// nothing.
pub proof fn law_accepted_limits_respect_both_sides(
    local: ZakuraLocalLimits,
    remote: ZakuraInitialLimits,
)
    ensures
        local.accepted(remote).max_frame_bytes <= remote.max_frame_bytes,
        local.accepted(remote).max_frame_bytes <= local.spec_initial_limits().max_frame_bytes,
        local.accepted(remote).max_message_bytes <= remote.max_message_bytes,
        local.accepted(remote).max_message_bytes <= local.spec_initial_limits().max_message_bytes,
        local.accepted(remote).max_open_streams <= remote.max_open_streams,
        local.accepted(remote).max_open_streams <= local.spec_initial_limits().max_open_streams,
        local.accepted(remote).max_inbound_queue_depth <= remote.max_inbound_queue_depth,
        local.accepted(remote).max_inbound_queue_depth
            <= local.spec_initial_limits().max_inbound_queue_depth,
        local.accepted(remote).idle_timeout_millis <= remote.idle_timeout_millis,
        local.accepted(remote).idle_timeout_millis
            <= local.spec_initial_limits().idle_timeout_millis,
        local.accepted(local.accepted(remote)) == local.accepted(remote),
{
}

/// A limit that both sides set is met exactly: each is one side's own, the smaller one, and
/// everything that is not negotiated is the local setting.
pub proof fn law_clamped_limits_are_no_smaller_than_needed(
    local: ZakuraLocalLimits,
    negotiated: ZakuraAcceptedLimits,
)
    ensures
        ({
            let limits = local.clamped(negotiated);
            &&& limits.max_frame_bytes == local.max_frame_bytes || limits.max_frame_bytes
                == negotiated.max_frame_bytes || limits.max_frame_bytes == 1 && (
            local.max_frame_bytes == 0 || negotiated.max_frame_bytes == 0)
            &&& limits.max_message_bytes == local.max_message_bytes || limits.max_message_bytes
                == negotiated.max_message_bytes || limits.max_message_bytes == 1 && (
            local.max_message_bytes == 0 || negotiated.max_message_bytes == 0)
            &&& limits.max_open_streams == local.max_open_streams || limits.max_open_streams
                == negotiated.max_open_streams || limits.max_open_streams == 1 && (
            local.max_open_streams == 0 || negotiated.max_open_streams == 0)
            &&& limits.max_inbound_queue_depth == local.max_inbound_queue_depth
                || limits.max_inbound_queue_depth == negotiated.max_inbound_queue_depth
                || limits.max_inbound_queue_depth == 1 && (local.max_inbound_queue_depth == 0
                || negotiated.max_inbound_queue_depth == 0)
            &&& limits.prelude_timeout == local.prelude_timeout
            &&& limits.control_timeout == local.control_timeout
            &&& limits.stream_open_rate_per_second == local.stream_open_rate_per_second
            &&& limits.message_rate_per_second == local.message_rate_per_second
        }),
{
}

/// The idle timeout of a connection is the negotiated one where that is below the QUIC idle
/// timeout, and one millisecond below the latter otherwise.
pub proof fn law_negotiated_idle_timeout_is_kept(
    local: ZakuraLocalLimits,
    negotiated: ZakuraAcceptedLimits,
)
    requires
        2 <= local.quic_idle_timeout.spec_millis() <= u64::MAX,
    ensures
        1 <= negotiated.idle_timeout_millis < local.quic_idle_timeout.spec_millis()
            ==> local.clamped(negotiated).idle_timeout.nanos == negotiated.idle_timeout_millis
            * 1_000_000,
        negotiated.idle_timeout_millis >= local.quic_idle_timeout.spec_millis() ==> local.clamped(
            negotiated,
        ).idle_timeout.nanos == (local.quic_idle_timeout.spec_millis() - 1) * 1_000_000,
{
    let below = millis_below(local.quic_idle_timeout);
    assert(below % 0x1_0000_0000_0000_0000int == below) by {
        vstd::arithmetic::div_mod::lemma_small_mod(
            below as nat,
            0x1_0000_0000_0000_0000nat,
        );
    }
}

/// A node asks for its own limits, and for an idle timeout one millisecond below that of
/// QUIC.
pub proof fn law_nodes_ask_for_their_own_limits(local: ZakuraLocalLimits)
    requires
        1 <= local.quic_idle_timeout.spec_millis() <= u32::MAX,
    ensures
        ({
            let asked = local.spec_initial_limits();
            &&& asked.max_frame_bytes == local.max_frame_bytes
            &&& asked.max_message_bytes == local.max_message_bytes
            &&& asked.max_open_streams == local.max_open_streams
            &&& asked.max_inbound_queue_depth == local.max_inbound_queue_depth
            &&& asked.idle_timeout_millis == local.quic_idle_timeout.spec_millis() - 1
        }),
{
    let below = millis_below(local.quic_idle_timeout);
    assert(below % 0x1_0000_0000int == below) by {
        vstd::arithmetic::div_mod::lemma_small_mod(below as nat, 0x1_0000_0000nat);
    }
}

/// What is accepted of a peer is no smaller than needed: each limit is the peer's or this
/// node's own. Two nodes that ask each other agree on the same limits.
pub proof fn law_accepted_limits_are_no_smaller_than_needed(
    local: ZakuraLocalLimits,
    remote: ZakuraLocalLimits,
)
    ensures
        ({
            let ours = local.spec_initial_limits();
            let theirs = remote.spec_initial_limits();
            let accepted = local.accepted(theirs);
            &&& accepted == remote.accepted(ours)
            &&& accepted.max_frame_bytes == ours.max_frame_bytes || accepted.max_frame_bytes
                == theirs.max_frame_bytes
            &&& accepted.max_message_bytes == ours.max_message_bytes || accepted.max_message_bytes
                == theirs.max_message_bytes
            &&& accepted.max_open_streams == ours.max_open_streams || accepted.max_open_streams
                == theirs.max_open_streams
            &&& accepted.max_inbound_queue_depth == ours.max_inbound_queue_depth
                || accepted.max_inbound_queue_depth == theirs.max_inbound_queue_depth
            &&& accepted.idle_timeout_millis == ours.idle_timeout_millis
                || accepted.idle_timeout_millis == theirs.idle_timeout_millis
        }),
{
}

/// The transport opens no more streams than the connection may have and none of the kinds
/// that are not used, and keeps the local timeouts.
pub proof fn law_transport_matches_the_limits(local: ZakuraLocalLimits)
    ensures
        ({
            let settings = local.spec_transport_config();
            &&& settings.max_concurrent_bidi_streams <= local.max_open_streams
            &&& settings.max_concurrent_bidi_streams == local.max_open_streams
                || settings.max_concurrent_bidi_streams == MAX_TRANSPORT_BIDI_STREAMS
            &&& settings.max_concurrent_uni_streams == 0
            &&& settings.datagram_receive_buffer_size is None
            &&& settings.datagram_send_buffer_size == 0
            &&& settings.max_idle_timeout_millis == local.quic_idle_timeout.nanos / 1_000_000
            &&& settings.keep_alive_interval == local.keep_alive_interval
            &&& settings.stream_receive_window == DEFAULT_ZAKURA_STREAM_RECEIVE_WINDOW
            &&& settings.receive_window == DEFAULT_ZAKURA_RECEIVE_WINDOW
            &&& settings.send_window == DEFAULT_ZAKURA_SEND_WINDOW
        }),
{
}

/// A configured cap or rate is used as it is, and one of zero is taken for one.
pub proof fn law_configured_limits_are_used(config: Config, limits: ZakuraLocalLimits)
    requires
        configured(config, limits),
    ensures
        limits.max_connections == config.zakura.max_connections || (config.zakura.max_connections
            == 0 && limits.max_connections == 1),
        limits.max_pending_handshakes == config.zakura.max_pending_handshakes || (
        config.zakura.max_pending_handshakes == 0 && limits.max_pending_handshakes == 1),
        limits.stream_open_rate_per_second == config.zakura.stream_open_rate_per_second || (
        config.zakura.stream_open_rate_per_second == 0 && limits.stream_open_rate_per_second == 1),
        limits.message_rate_per_second == config.zakura.message_rate_per_second || (
        config.zakura.message_rate_per_second == 0 && limits.message_rate_per_second == 1),
        limits.max_frame_bytes == config.handshake.max_control_frame_bytes,
        limits.max_message_bytes == config.handshake.max_message_bytes,
        limits.max_open_streams == config.handshake.max_open_streams,
        limits.max_inbound_queue_depth == config.handshake.max_inbound_queue_depth,
{
}

} // verus!
