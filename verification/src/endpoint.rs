//! What an endpoint starts with.

use crate::bootstrap::{
    self, default_advertised_services, parse_bootstrap_peers, zakura_secret_key, ZakuraServiceId,
};
use crate::error::ZakuraHandlerError;
use crate::limits::{
    self, effective_discovery_connection_headroom, validate_idle_invariant, Config,
    TransportSettings, ZakuraLocalLimits,
};
use crate::node::{self, NodeAddr, SocketAddr};
use vstd::prelude::*;

verus! {

/// What an endpoint starts with.
#[derive(Debug)]
pub struct EndpointPlan {
    /// The local ceilings.
    pub limits: ZakuraLocalLimits,
    /// The transport settings.
    pub transport: TransportSettings,
    /// The node's secret key.
    pub secret_key: [u8; 32],
    /// The peers to keep connected.
    pub bootstrap_peers: Vec<NodeAddr>,
    /// The connections that discovery leaves free.
    pub discovery_connection_headroom: usize,
    /// The services to advertise.
    pub services: Vec<ZakuraServiceId>,
}

/// Plans an endpoint: none where it is turned off, an error where the configured key
/// does not do or no fresh one can be had. `bootstrap_entries` are the configured bootstrap
/// peers, each with what its address part reads as.
pub fn spawn_zakura_endpoint(
    config: &Config,
    secret_key: Option<&str>,
    bootstrap_entries: &Vec<(String, Option<SocketAddr>)>,
) -> (plan: Result<Option<EndpointPlan>, ZakuraHandlerError>)
    ensures
        !config.v2_p2p ==> plan matches Ok(None),
        config.v2_p2p ==> match plan {
            Ok(Some(plan)) => {
                &&& limits::configured(*config, plan.limits)
                &&& limits::idle_invariant(plan.limits)
                &&& plan.transport == plan.limits.spec_transport_config()
                &&& secret_key matches Some(text) ==> node::parsed_secret_key(text@) == Some(
                    plan.secret_key@,
                )
                &&& bootstrap::entries_mean(bootstrap_entries@, plan.bootstrap_peers@)
                &&& plan.discovery_connection_headroom == (if plan.bootstrap_peers@.len()
                    > limits::DEFAULT_DISCOVERY_CONNECTION_HEADROOM {
                    plan.bootstrap_peers@.len() as int
                } else {
                    limits::DEFAULT_DISCOVERY_CONNECTION_HEADROOM as int
                })
                &&& plan.services@ == seq![
                    ZakuraServiceId::Discovery,
                    ZakuraServiceId::LegacyGossip,
                    ZakuraServiceId::LegacyRequests,
                    ZakuraServiceId::ServiceDiscovery,
                ]
            },
            Ok(None) => false,
            Err(ZakuraHandlerError::InvalidSecretKey) => secret_key matches Some(text)
                && node::parsed_secret_key(text@) is None,
            Err(error) => error == ZakuraHandlerError::Io && secret_key is None,
        },
{
    if !config.v2_p2p {
        return Ok(None);
    }
    let limits = ZakuraLocalLimits::from_config(config);
    proof {
        limits::law_configured_timeouts_are_ordered(*config, limits);
    }
    if let Err(error) = validate_idle_invariant(&limits) {
        return Err(error);
    }
    let secret_key = match zakura_secret_key(secret_key) {
        Ok(key) => key,
        Err(error) => return Err(error),
    };
    let bootstrap_peers = parse_bootstrap_peers(bootstrap_entries);
    let discovery_connection_headroom: usize = effective_discovery_connection_headroom(
        bootstrap_peers.len(),
    );
    Ok(
        Some(
            EndpointPlan {
                transport: limits.transport_config(),
                limits,
                secret_key,
                bootstrap_peers,
                discovery_connection_headroom,
                services: default_advertised_services(),
            },
        ),
    )
}

} // verus!
