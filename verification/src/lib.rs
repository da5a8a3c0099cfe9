//! Zakura peer-to-peer connection and header-sync logic.

pub mod bootstrap;
pub mod connection;
pub mod dial;
pub mod discovery;
pub mod discovery_dial;
pub mod echo_status;
pub mod endpoint;
pub mod error;
pub mod exchange;
pub mod handshake;
pub mod header_sync;
pub mod inventory;
pub mod legacy_response;
pub mod legacy_response_laws;
pub mod limits;
pub mod node;
pub mod outbound;
mod random;
pub mod rate;
pub mod service_route;
pub mod sink;
pub mod streams;
pub mod supervisor;
pub mod time;
pub mod types;
pub mod vec_map;
pub mod wire;
