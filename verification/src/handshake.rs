//! The control handshake of a native connection.
//!
//! The magic bytes and the version of the control messages belong to their encoding; what
//! the messages say is decided here.

use crate::error::ZakuraHandlerError;
use crate::limits::{
    ZakuraAcceptedLimits, ZakuraHandshakeConfig, ZakuraInitialLimits, ZakuraLocalLimits,
};
use crate::random::random_bytes_32;
use crate::types::{copy_bytes, ZakuraPeerId};
use vstd::prelude::*;

verus! {

/// The protocol version that native connections speak.
pub const ZAKURA_PROTOCOL_VERSION_1: u16 = 1;

/// How a connection came about.
#[derive(Copy, Clone, Debug, PartialEq, Eq, Structural)]
pub enum ZakuraHandshakePath {
    /// Dialed directly.
    Native,
    /// Upgraded from a legacy connection.
    Upgrade,
}

/// A side of the handshake.
#[derive(Copy, Clone, Debug, PartialEq, Eq, Structural)]
pub enum ZakuraControlRole {
    /// The side that dialed.
    Initiator,
    /// The side that was dialed.
    Responder,
}

/// What the initiator says.
#[derive(Clone, Debug)]
pub struct ZakuraControlHello {
    /// Protocol version of the connection.
    pub selected_zakura_protocol: u16,
    /// How the connection came about.
    pub handshake_path: ZakuraHandshakePath,
    /// The side that speaks.
    pub role: ZakuraControlRole,
    /// The network.
    pub network_id: u32,
    /// The chain.
    pub chain_id: [u8; 32],
    /// The node that speaks.
    pub iroh_node_id: Vec<u8>,
    /// A fresh nonce.
    pub peer_nonce: [u8; 32],
    /// The initiator's nonce of a legacy upgrade, zero without one.
    pub initiator_upgrade_nonce: [u8; 32],
    /// The responder's nonce of a legacy upgrade, zero without one.
    pub responder_upgrade_nonce: [u8; 32],
    /// The transcript of a legacy upgrade, zero without one.
    pub legacy_upgrade_transcript: [u8; 32],
    /// Capabilities that are offered.
    pub capabilities: u64,
    /// Channels that are required.
    pub required_channels: u64,
    /// Limits that are asked for.
    pub initial_limits: ZakuraInitialLimits,
}

/// What the responder answers.
#[derive(Copy, Clone, Debug, PartialEq, Eq)]
pub struct ZakuraControlAck {
    /// Protocol version of the connection.
    pub selected_zakura_protocol: u16,
    /// A fresh nonce.
    pub peer_nonce: [u8; 32],
    /// The initiator's nonce.
    pub remote_peer_nonce: [u8; 32],
    /// Capabilities that both sides have.
    pub accepted_capabilities: u64,
    /// Channels that both sides have.
    pub accepted_channels: u64,
    /// Limits of the connection.
    pub accepted_limits: ZakuraAcceptedLimits,
}

/// What a responder expects of a hello.
#[derive(Clone, Debug)]
pub struct ZakuraControlValidation {
    /// The local policy.
    pub local: ZakuraHandshakeConfig,
    /// The node that authenticated.
    pub authenticated_remote_id: Vec<u8>,
    /// Protocol version of the connection.
    pub selected_zakura_protocol: u16,
    /// How the connection came about.
    pub handshake_path: ZakuraHandshakePath,
    /// The side that speaks.
    pub remote_role: ZakuraControlRole,
    /// The initiator's nonce of a legacy upgrade.
    pub initiator_upgrade_nonce: [u8; 32],
    /// The responder's nonce of a legacy upgrade.
    pub responder_upgrade_nonce: [u8; 32],
    /// The transcript of a legacy upgrade.
    pub legacy_upgrade_transcript: [u8; 32],
}

/// What an initiator expects of an answer.
#[derive(Copy, Clone, Debug, PartialEq, Eq)]
pub struct ZakuraAckValidation {
    /// Protocol version of the connection.
    pub selected_zakura_protocol: u16,
    /// The nonce that the initiator sent.
    pub local_nonce: [u8; 32],
    /// The nonce that the responder sent.
    pub remote_nonce: [u8; 32],
    /// Limits that the initiator asked for.
    pub initial_limits: ZakuraInitialLimits,
    /// The local policy.
    pub local: ZakuraHandshakeConfig,
}

/// Whether all bytes are zero.
pub open spec fn all_zero(bytes: [u8; 32]) -> bool {
    forall|i: int| 0 <= i < 32 ==> bytes@[i] == 0
}

/// What a responder expects of the hello of an authenticated peer: a native connection
/// from its initiator, with nothing of a legacy upgrade.
pub fn responder_expectation(config: &ZakuraHandshakeConfig, remote: &ZakuraPeerId) -> (expected:
    ZakuraControlValidation)
    ensures
        expected.local == *config,
        expected.authenticated_remote_id@ == remote@,
        expected.selected_zakura_protocol == ZAKURA_PROTOCOL_VERSION_1,
        expected.handshake_path == ZakuraHandshakePath::Native,
        expected.remote_role == ZakuraControlRole::Initiator,
        all_zero(expected.initiator_upgrade_nonce),
        all_zero(expected.responder_upgrade_nonce),
        all_zero(expected.legacy_upgrade_transcript),
{
    ZakuraControlValidation {
        local: *config,
        authenticated_remote_id: copy_bytes(remote.as_bytes()),
        selected_zakura_protocol: ZAKURA_PROTOCOL_VERSION_1,
        handshake_path: ZakuraHandshakePath::Native,
        remote_role: ZakuraControlRole::Initiator,
        initiator_upgrade_nonce: [0u8; 32],
        responder_upgrade_nonce: [0u8; 32],
        legacy_upgrade_transcript: [0u8; 32],
    }
}

/// The answer to a hello, with a nonce: what both sides have, under the lower of their
/// limits.
pub open spec fn ack_for(
    config: ZakuraHandshakeConfig,
    limits: ZakuraLocalLimits,
    hello: ZakuraControlHello,
    nonce: [u8; 32],
) -> ZakuraControlAck {
    ZakuraControlAck {
        selected_zakura_protocol: hello.selected_zakura_protocol,
        peer_nonce: nonce,
        remote_peer_nonce: hello.peer_nonce,
        accepted_capabilities: hello.capabilities & config.supported_capabilities,
        accepted_channels: hello.required_channels & config.supported_channels,
        accepted_limits: limits.accepted(hello.initial_limits),
    }
}

/// Answers a hello, given whether it is acceptable and a nonce if there is one.
pub fn respond_to_hello(
    config: &ZakuraHandshakeConfig,
    limits: &ZakuraLocalLimits,
    hello: &ZakuraControlHello,
    validated: Result<(), ZakuraHandlerError>,
    nonce: Option<[u8; 32]>,
) -> (ack: Result<ZakuraControlAck, ZakuraHandlerError>)
    ensures
        ack == (match (validated, nonce) {
            (Err(error), _) => Err(error),
            (Ok(()), None) => Err(ZakuraHandlerError::Io),
            (Ok(()), Some(nonce)) => Ok(ack_for(*config, *limits, *hello, nonce)),
        }),
{
    if let Err(error) = validated {
        return Err(error);
    }
    match nonce {
        None => Err(ZakuraHandlerError::Io),
        Some(nonce) => Ok(
            ZakuraControlAck {
                selected_zakura_protocol: hello.selected_zakura_protocol,
                peer_nonce: nonce,
                remote_peer_nonce: hello.peer_nonce,
                accepted_capabilities: hello.capabilities & config.supported_capabilities,
                accepted_channels: hello.required_channels & config.supported_channels,
                accepted_limits: limits.accepted_limits_for(&hello.initial_limits),
            },
        ),
    }
}

/// Answers a hello with a fresh nonce.
pub fn run_native_responder_handshake(
    config: &ZakuraHandshakeConfig,
    limits: &ZakuraLocalLimits,
    hello: &ZakuraControlHello,
    validated: Result<(), ZakuraHandlerError>,
) -> (ack: Result<ZakuraControlAck, ZakuraHandlerError>)
    ensures
        match validated {
            Err(error) => ack == Err::<ZakuraControlAck, ZakuraHandlerError>(error),
            Ok(()) => match ack {
                Ok(ack) => ack == ack_for(*config, *limits, *hello, ack.peer_nonce),
                Err(error) => error == ZakuraHandlerError::Io,
            },
        },
{
    respond_to_hello(config, limits, hello, validated, random_bytes_32())
}

/// Whether a hello is what the initiator of a native connection says.
pub open spec fn is_native_hello(
    hello: ZakuraControlHello,
    limits: ZakuraLocalLimits,
    config: ZakuraHandshakeConfig,
    local: Seq<u8>,
) -> bool {
    &&& hello.selected_zakura_protocol == ZAKURA_PROTOCOL_VERSION_1
    &&& hello.handshake_path == ZakuraHandshakePath::Native
    &&& hello.role == ZakuraControlRole::Initiator
    &&& hello.network_id == config.network_id
    &&& hello.chain_id == config.chain_id
    &&& hello.iroh_node_id@ == local
    &&& all_zero(hello.initiator_upgrade_nonce)
    &&& all_zero(hello.responder_upgrade_nonce)
    &&& all_zero(hello.legacy_upgrade_transcript)
    &&& hello.capabilities == 0
    &&& hello.required_channels == 0
    &&& hello.initial_limits == limits.spec_initial_limits()
}

/// The hello of an initiator with a nonce, an error where there is none.
pub fn initiator_hello(
    limits: &ZakuraLocalLimits,
    config: &ZakuraHandshakeConfig,
    local: &ZakuraPeerId,
    nonce: Option<[u8; 32]>,
) -> (hello: Result<ZakuraControlHello, ZakuraHandlerError>)
    ensures
        match nonce {
            Some(nonce) => hello matches Ok(hello) && is_native_hello(
                hello,
                *limits,
                *config,
                local@,
            ) && hello.peer_nonce == nonce,
            None => hello matches Err(error) && error == ZakuraHandlerError::Io,
        },
{
    match nonce {
        Some(nonce) => Ok(
            ZakuraControlHello {
                selected_zakura_protocol: ZAKURA_PROTOCOL_VERSION_1,
                handshake_path: ZakuraHandshakePath::Native,
                role: ZakuraControlRole::Initiator,
                network_id: config.network_id,
                chain_id: config.chain_id,
                iroh_node_id: copy_bytes(local.as_bytes()),
                peer_nonce: nonce,
                initiator_upgrade_nonce: [0u8; 32],
                responder_upgrade_nonce: [0u8; 32],
                legacy_upgrade_transcript: [0u8; 32],
                capabilities: 0,
                required_channels: 0,
                initial_limits: limits.initial_limits(),
            },
        ),
        None => Err(ZakuraHandlerError::Io),
    }
}

/// The hello of an initiator with a fresh nonce.
pub fn start_native_initiator_handshake(
    limits: &ZakuraLocalLimits,
    config: &ZakuraHandshakeConfig,
    local: &ZakuraPeerId,
) -> (hello: Result<ZakuraControlHello, ZakuraHandlerError>)
    ensures
        match hello {
            Ok(hello) => is_native_hello(hello, *limits, *config, local@),
            Err(error) => error == ZakuraHandlerError::Io,
        },
{
    initiator_hello(limits, config, local, random_bytes_32())
}

/// What an initiator expects of the answer to its hello: the protocol version that native
/// connections speak, its own nonce given back, the answer's own nonce, and limits within
/// those that it asked for, under its policy.
pub fn initiator_expectation(
    hello: &ZakuraControlHello,
    ack: &ZakuraControlAck,
    config: &ZakuraHandshakeConfig,
) -> (expected: ZakuraAckValidation)
    ensures
        expected.selected_zakura_protocol == ZAKURA_PROTOCOL_VERSION_1,
        expected.local_nonce == hello.peer_nonce,
        expected.remote_nonce == ack.peer_nonce,
        expected.initial_limits == hello.initial_limits,
        expected.local == *config,
{
    ZakuraAckValidation {
        selected_zakura_protocol: ZAKURA_PROTOCOL_VERSION_1,
        local_nonce: hello.peer_nonce,
        remote_nonce: ack.peer_nonce,
        initial_limits: hello.initial_limits,
        local: *config,
    }
}

/// The limits that an initiator takes from the answer, given whether it is acceptable.
pub fn run_native_initiator_handshake(
    ack: &ZakuraControlAck,
    validated: Result<(), ZakuraHandlerError>,
) -> (negotiated: Result<ZakuraAcceptedLimits, ZakuraHandlerError>)
    ensures
        negotiated == (match validated {
            Ok(()) => Ok(ack.accepted_limits),
            Err(error) => Err(error),
        }),
{
    match validated {
        Ok(()) => Ok(ack.accepted_limits),
        Err(error) => Err(error),
    }
}

/// An answer never grants what was not offered or is not supported, echoes the
/// initiator's nonce and stays within the limits that were asked for.
pub proof fn law_ack_stays_within_offer(
    config: ZakuraHandshakeConfig,
    limits: ZakuraLocalLimits,
    hello: ZakuraControlHello,
    nonce: [u8; 32],
)
    ensures
        ({
            let ack = ack_for(config, limits, hello, nonce);
            &&& ack.accepted_capabilities & !hello.capabilities == 0
            &&& ack.accepted_capabilities & !config.supported_capabilities == 0
            &&& ack.accepted_channels & !hello.required_channels == 0
            &&& ack.accepted_channels & !config.supported_channels == 0
            &&& ack.remote_peer_nonce == hello.peer_nonce
            &&& ack.selected_zakura_protocol == hello.selected_zakura_protocol
            &&& ack.accepted_limits.max_frame_bytes <= hello.initial_limits.max_frame_bytes
            &&& ack.accepted_limits.max_message_bytes <= hello.initial_limits.max_message_bytes
            &&& ack.accepted_limits.max_open_streams <= hello.initial_limits.max_open_streams
            &&& ack.accepted_limits.max_inbound_queue_depth
                <= hello.initial_limits.max_inbound_queue_depth
            &&& ack.accepted_limits.idle_timeout_millis <= hello.initial_limits.idle_timeout_millis
        }),
{
    let offered = hello.capabilities;
    let supported = config.supported_capabilities;
    let required = hello.required_channels;
    let channels = config.supported_channels;
    assert((offered & supported) & !offered == 0 && (offered & supported) & !supported == 0)
        by (bit_vector);
    assert((required & channels) & !required == 0 && (required & channels) & !channels == 0)
        by (bit_vector);
    crate::limits::law_accepted_limits_respect_both_sides(limits, hello.initial_limits);
}

/// An answer grants all that both sides have: a capability or channel that was offered and is
/// supported is accepted, and every limit is that of one side. The nonce is the given one.
pub proof fn law_ack_grants_what_both_sides_have(
    config: ZakuraHandshakeConfig,
    limits: ZakuraLocalLimits,
    hello: ZakuraControlHello,
    nonce: [u8; 32],
)
    ensures
        ({
            let ack = ack_for(config, limits, hello, nonce);
            let asked = hello.initial_limits;
            let own = limits.spec_initial_limits();
            &&& (hello.capabilities & config.supported_capabilities) & !ack.accepted_capabilities
                == 0
            &&& (hello.required_channels & config.supported_channels) & !ack.accepted_channels == 0
            &&& ack.peer_nonce == nonce
            &&& ack.accepted_limits.max_frame_bytes == asked.max_frame_bytes
                || ack.accepted_limits.max_frame_bytes == own.max_frame_bytes
            &&& ack.accepted_limits.max_message_bytes == asked.max_message_bytes
                || ack.accepted_limits.max_message_bytes == own.max_message_bytes
            &&& ack.accepted_limits.max_open_streams == asked.max_open_streams
                || ack.accepted_limits.max_open_streams == own.max_open_streams
            &&& ack.accepted_limits.max_inbound_queue_depth == asked.max_inbound_queue_depth
                || ack.accepted_limits.max_inbound_queue_depth == own.max_inbound_queue_depth
            &&& ack.accepted_limits.idle_timeout_millis == asked.idle_timeout_millis
                || ack.accepted_limits.idle_timeout_millis == own.idle_timeout_millis
            &&& ack.accepted_limits.max_frame_bytes <= own.max_frame_bytes
            &&& ack.accepted_limits.max_message_bytes <= own.max_message_bytes
            &&& ack.accepted_limits.max_open_streams <= own.max_open_streams
            &&& ack.accepted_limits.max_inbound_queue_depth <= own.max_inbound_queue_depth
            &&& ack.accepted_limits.idle_timeout_millis <= own.idle_timeout_millis
        }),
{
    let offered = hello.capabilities;
    let supported = config.supported_capabilities;
    let required = hello.required_channels;
    let channels = config.supported_channels;
    assert((offered & supported) & !(offered & supported) == 0) by (bit_vector);
    assert((required & channels) & !(required & channels) == 0) by (bit_vector);
}

/// A native hello is what a responder of the same network expects: it names the network, the
/// chain, the node that speaks and the native path, and nothing of a legacy upgrade.
pub proof fn law_native_hello_meets_the_responder(
    hello: ZakuraControlHello,
    limits: ZakuraLocalLimits,
    config: ZakuraHandshakeConfig,
    local: Seq<u8>,
)
    requires
        is_native_hello(hello, limits, config, local),
    ensures
        hello.selected_zakura_protocol == ZAKURA_PROTOCOL_VERSION_1,
        hello.handshake_path == ZakuraHandshakePath::Native,
        hello.role == ZakuraControlRole::Initiator,
        hello.network_id == config.network_id,
        hello.chain_id == config.chain_id,
        hello.iroh_node_id@ == local,
        forall|i: int|
            0 <= i < 32 ==> hello.initiator_upgrade_nonce@[i] == 0
                && hello.responder_upgrade_nonce@[i] == 0 && #[trigger] hello.legacy_upgrade_transcript@[i]
                == 0,
        hello.initial_limits.max_frame_bytes == limits.max_frame_bytes,
        hello.initial_limits.max_message_bytes == limits.max_message_bytes,
        hello.initial_limits.max_open_streams == limits.max_open_streams,
        hello.initial_limits.max_inbound_queue_depth == limits.max_inbound_queue_depth,
{
}

} // verus!
