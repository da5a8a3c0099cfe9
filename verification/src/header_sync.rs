//! Header synchronization: range scheduling, per-peer state and peer routines.

pub mod assignments;
pub mod config;
pub mod covered;
pub mod dedup;
pub mod events;
pub mod ingest;
pub mod meters;
pub mod peer_state;
pub mod pipe;
pub mod pull_laws;
pub mod ranges;
pub mod routine;
pub mod routine_laws;
pub mod run;
pub mod run_laws;
pub mod scheduler;
pub mod scheduler_laws;
pub mod state;
pub mod state_laws;
