//! Facts, actions and startup inputs of header sync.
//!
//! `H` stands for a block header and `B` for a full block; header sync carries both
//! without looking inside.

use crate::header_sync::config::{NetworkParams, ZakuraHeaderSyncConfig};
use crate::time::Duration;
use crate::types::{same_bytes_32, BlockHash, Height, ZakuraPeerId};
use vstd::prelude::*;

verus! {

/// Whether the backfill below the sync start runs unless startup says otherwise.
pub const BELOW_SYNC_START_BACKFILL_ENABLED: bool = false;

/// Cached state frontiers.
#[derive(Copy, Clone, Debug, PartialEq, Eq)]
pub struct HeaderSyncFrontiers {
    /// Shared finalized height.
    pub finalized_height: Height,
    /// Highest verified block body height.
    pub verified_block_tip: Height,
    /// Hash at the highest verified block body height.
    pub verified_block_hash: BlockHash,
}

/// Startup inputs of header sync.
#[derive(Debug)]
pub struct HeaderSyncStartup {
    /// Active network.
    pub network: NetworkParams,
    /// Trusted anchor height and hash.
    pub anchor: (Height, BlockHash),
    /// Cached state frontiers at startup.
    pub frontiers: HeaderSyncFrontiers,
    /// Durable best header tip loaded from storage at startup.
    pub best_header_tip: Option<(Height, BlockHash)>,
    /// Hash of the parent of the best header, where it is known.
    pub best_header_parent_hash: Option<BlockHash>,
    /// Local advertisement and caps.
    pub config: ZakuraHeaderSyncConfig,
    /// Application frame cap for header-sync responses.
    pub max_frame_bytes: u32,
    /// Timeout of one request.
    pub request_timeout: Duration,
    /// Minimum interval between unsolicited status refreshes to a peer.
    pub status_refresh_interval: Duration,
    /// Height up to which commitment roots are wanted.
    pub last_checkpoint_height: Height,
    /// Whether the backfill below the sync start runs.
    pub backfill_enabled: bool,
    /// Enables outbound range scheduling and state-backed header actions.
    pub range_state_actions_enabled: bool,
    /// Enables relaying inbound new blocks.
    pub inbound_new_block_acceptance_enabled: bool,
}

impl HeaderSyncStartup {
    /// Startup inputs from the active network and durable facts.
    pub fn new(
        network: NetworkParams,
        anchor: (Height, BlockHash),
        frontiers: HeaderSyncFrontiers,
        best_header_tip: Option<(Height, BlockHash)>,
        config: ZakuraHeaderSyncConfig,
        max_frame_bytes: u32,
    ) -> (startup: Self)
        ensures
            startup.network == network,
            startup.anchor == anchor,
            startup.frontiers == frontiers,
            startup.best_header_tip == best_header_tip,
            startup.best_header_parent_hash is None,
            startup.config == config,
            startup.max_frame_bytes == max_frame_bytes,
            startup.request_timeout == config.request_timeout,
            startup.status_refresh_interval == config.status_refresh_interval,
            startup.last_checkpoint_height == network.last_checkpoint_height,
            startup.backfill_enabled == BELOW_SYNC_START_BACKFILL_ENABLED,
            !startup.range_state_actions_enabled,
            !startup.inbound_new_block_acceptance_enabled,
    {
        let last_checkpoint_height = network.last_checkpoint_height;
        HeaderSyncStartup {
            network,
            anchor,
            frontiers,
            best_header_tip,
            best_header_parent_hash: None,
            config,
            max_frame_bytes,
            request_timeout: config.request_timeout,
            status_refresh_interval: config.status_refresh_interval,
            last_checkpoint_height,
            backfill_enabled: BELOW_SYNC_START_BACKFILL_ENABLED,
            range_state_actions_enabled: false,
            inbound_new_block_acceptance_enabled: false,
        }
    }
}

/// A peer's advertisement of its chain tip and serving caps.
#[derive(Copy, Clone, Debug, PartialEq, Eq)]
pub struct HeaderSyncStatus {
    /// Height of the peer's best header.
    pub tip_height: Height,
    /// Hash of the peer's best header.
    pub tip_hash: BlockHash,
    /// Lowest height the peer serves from.
    pub anchor_height: Height,
    /// Most headers the peer puts into one response.
    pub max_headers_per_response: u32,
    /// Most requests the peer serves at a time.
    pub max_inflight_requests: u16,
}

impl HeaderSyncStatus {
    /// Whether both advertise the same.
    pub fn same_status(&self, other: &HeaderSyncStatus) -> (same: bool)
        ensures
            same == (*self == *other),
    {
        self.tip_height == other.tip_height && same_bytes_32(&self.tip_hash.0, &other.tip_hash.0)
            && self.anchor_height == other.anchor_height && self.max_headers_per_response
            == other.max_headers_per_response && self.max_inflight_requests
            == other.max_inflight_requests
    }
}

/// A decoded header-sync message.
#[derive(Debug)]
pub enum HeaderSyncMessage<H, B> {
    /// The sender's advertisement.
    Status(HeaderSyncStatus),
    /// Headers that answer a request.
    Headers {
        /// Headers in ascending height order.
        headers: Vec<H>,
        /// Advisory serialized body sizes, parallel to `headers`.
        body_sizes: Vec<u32>,
    },
    /// A request for headers.
    GetHeaders {
        /// First requested height.
        start_height: Height,
        /// Requested header count.
        count: u32,
    },
    /// A new tip block.
    NewBlock(B),
}

/// Facts that reach the header-sync reactor.
#[derive(Debug)]
pub enum HeaderSyncEvent<H, B> {
    /// A peer disconnected; all of its outstanding work is dropped.
    PeerDisconnected(ZakuraPeerId),
    /// State committed a full block.
    FullBlockCommitted {
        /// Committed block height.
        height: Height,
        /// Committed block hash.
        hash: BlockHash,
        /// Committed block header.
        header: H,
    },
    /// The block pipeline accepted an inbound new block.
    NewBlockAccepted {
        /// Source peer.
        peer: ZakuraPeerId,
        /// Accepted block height.
        height: Height,
        /// Accepted block hash.
        hash: BlockHash,
        /// Accepted full block.
        block: B,
    },
    /// The block pipeline already knew an inbound new block.
    NewBlockDuplicate {
        /// Source peer.
        peer: ZakuraPeerId,
        /// Duplicate block height.
        height: Height,
        /// Duplicate block hash.
        hash: BlockHash,
    },
    /// The block pipeline rejected an inbound new block.
    NewBlockRejected {
        /// Source peer.
        peer: ZakuraPeerId,
        /// Rejected block hash.
        hash: BlockHash,
    },
    /// A peer routine accepted a valid status.
    PeerStatusUpdated {
        /// Peer whose summary changed.
        peer: ZakuraPeerId,
        /// Validated, cap-clamped status.
        status: HeaderSyncStatus,
    },
    /// A peer routine took work, recorded the expected response and sent the request.
    PeerWorkAssigned {
        /// Peer whose routine sent the request.
        peer: ZakuraPeerId,
        /// Session generation that owns the request.
        generation: u64,
        /// First requested height.
        start_height: Height,
        /// Requested header count.
        count: u32,
        /// Hash that the first header must link to.
        anchor_hash: BlockHash,
        /// Whether the range is authenticated by a checkpoint.
        finalized: bool,
        /// Whether the range is forward work.
        forward: bool,
    },
    /// A peer routine validated a correlated response.
    PeerHeadersReceived {
        /// Peer that supplied the response.
        peer: ZakuraPeerId,
        /// Headers in ascending height order.
        headers: Vec<H>,
        /// Advisory serialized body sizes, parallel to `headers`.
        body_sizes: Vec<u32>,
    },
    /// A peer routine accepted an inbound request that needs a state lookup.
    InboundGetHeadersRequested {
        /// Peer that requested the range.
        peer: ZakuraPeerId,
        /// First requested height.
        start_height: Height,
        /// Requested header count.
        count: u32,
    },
    /// A peer routine decoded a new block that needs global acceptance.
    NewBlockCandidate {
        /// Source peer.
        peer: ZakuraPeerId,
        /// Full block decoded from the wire.
        block: B,
    },
    /// A peer routine classified a protocol violation.
    PeerMisbehavior {
        /// Peer that violated protocol.
        peer: ZakuraPeerId,
        /// The violation.
        reason: HeaderSyncMisbehavior,
    },
    /// State finalized or verified-body frontiers changed.
    StateFrontiersChanged(HeaderSyncFrontiers),
    /// State committed a header range.
    HeaderRangeCommitted {
        /// First committed height.
        start_height: Height,
        /// New best header tip height.
        tip_height: Height,
        /// New best header tip hash.
        tip_hash: BlockHash,
    },
    /// State rejected a previously requested range.
    HeaderRangeCommitFailed {
        /// Peer that supplied the failed range.
        peer: ZakuraPeerId,
        /// First failed range height.
        start_height: Height,
        /// Failed range count.
        count: u32,
        /// Whether peer data or a local failure was to blame.
        kind: HeaderSyncCommitFailureKind,
    },
    /// A response to an inbound request was finished or abandoned.
    HeaderRangeResponseFinished {
        /// Peer whose served-response slot can be released.
        peer: ZakuraPeerId,
        /// First requested height.
        start_height: Height,
        /// Requested header count.
        requested_count: u32,
        /// Number of headers sent in the response.
        returned_count: u32,
    },
    /// State returned headers requested by a peer.
    HeaderRangeResponseReady {
        /// Peer whose inbound request is being served.
        peer: ZakuraPeerId,
        /// First requested height.
        start_height: Height,
        /// Requested header count.
        requested_count: u32,
        /// Bounded headers returned by state.
        headers: Vec<H>,
        /// Advisory serialized body sizes, parallel to `headers`.
        body_sizes: Vec<u32>,
    },
}

/// What header sync asks of the node around it.
#[derive(Debug)]
pub enum HeaderSyncAction<H, B> {
    /// Commit a contiguous header range to the state.
    CommitHeaderRange {
        /// Peer that supplied the range.
        peer: ZakuraPeerId,
        /// Parent hash of the first header.
        anchor: BlockHash,
        /// First header height.
        start_height: Height,
        /// Headers to commit.
        headers: Vec<H>,
        /// Advisory serialized body sizes, parallel to the headers.
        body_sizes: Vec<u32>,
        /// Whether the range is final by checkpoint policy.
        finalized: bool,
    },
    /// Ask the state for the durable best header tip.
    QueryBestHeaderTip,
    /// Ask the state for a contiguous range of headers.
    QueryHeadersByHeightRange {
        /// Peer that requested the range.
        peer: ZakuraPeerId,
        /// First height.
        start: Height,
        /// Maximum count.
        count: u32,
    },
    /// Ask the state for missing block bodies.
    QueryMissingBlockBodies {
        /// First height to consider.
        from: Height,
        /// Maximum number of heights.
        limit: u32,
    },
    /// Report a misbehaving peer.
    Misbehavior {
        /// Misbehaving peer.
        peer: ZakuraPeerId,
        /// Reason for reporting.
        reason: HeaderSyncMisbehavior,
    },
    /// Some bodies of known headers are missing.
    BodyGaps {
        /// First missing height.
        from: Height,
        /// Last missing height.
        to: Height,
    },
    /// The best header advanced.
    HeaderAdvanced {
        /// New best-header height.
        height: Height,
        /// New best-header hash.
        hash: BlockHash,
    },
    /// The best header was re-anchored.
    HeaderReanchored {
        /// Previous best header.
        old_tip: (Height, BlockHash),
        /// New best header.
        new_tip: (Height, BlockHash),
    },
    /// A validated tip block arrived.
    NewBlockReceived {
        /// Source peer.
        peer: ZakuraPeerId,
        /// Block height.
        height: Height,
        /// Block hash.
        hash: BlockHash,
        /// The block.
        block: B,
    },
}

/// Header-sync peer-accounting violations.
#[derive(Copy, Clone, Debug, PartialEq, Eq, Structural)]
pub enum HeaderSyncMisbehavior {
    /// Peer status is internally impossible.
    InvalidStatus,
    /// Headers arrived without an outstanding request.
    UnsolicitedHeaders,
    /// Headers were empty and made no progress.
    EmptyHeaders,
    /// Headers exceeded the outstanding request contract.
    ResponseTooLong,
    /// Peer supplied a range that failed contextual commit.
    InvalidRange,
    /// A payload was malformed before semantic handling.
    MalformedMessage,
    /// A peer sent statuses faster than the budget.
    StatusSpam,
    /// A peer sent new blocks faster than the budget.
    NewBlockSpam,
    /// A peer exceeded this node's serving budget.
    GetHeadersSpam,
    /// A peer requested more headers than this node serves.
    GetHeadersTooLong,
    /// A message came from a peer with no active header-sync state.
    UnknownPeer,
    /// A full-block tip flood failed stateless validation.
    InvalidNewBlock,
}

/// Why a header range failed to commit.
#[derive(Copy, Clone, Debug, PartialEq, Eq, Structural)]
pub enum HeaderSyncCommitFailureKind {
    /// The headers failed contextual validation or checkpoint consistency.
    InvalidPeerRange,
    /// Local storage, channel or resource failure; the peer is not to blame.
    Local,
}

/// Why a header-sync message is not well formed.
#[derive(Debug)]
pub enum HeaderSyncWireError {
    /// Headers arrived without an outstanding request.
    UnsolicitedHeaders,
    /// A request count is zero or above the protocol's cap.
    InvalidGetHeadersCount {
        /// The count.
        count: u32,
        /// The cap.
        max: u32,
    },
    /// The payload does not decode.
    Malformed(String),
}

/// Checks a request count against the protocol's cap.
pub fn validate_get_headers_count(count: u32, max: u32) -> (result: Result<(), HeaderSyncWireError>)
    ensures
        result == (if 1 <= count <= max {
            Ok::<(), HeaderSyncWireError>(())
        } else {
            Err(HeaderSyncWireError::InvalidGetHeadersCount { count, max })
        }),
{
    if count == 0 || count > max {
        Err(HeaderSyncWireError::InvalidGetHeadersCount { count, max })
    } else {
        Ok(())
    }
}

/// A single outbound request whose response a peer session expects.
#[derive(Copy, Clone, Debug, PartialEq, Eq, Structural)]
pub struct ExpectedHeadersResponse {
    /// First requested height.
    pub start_height: Height,
    /// Requested header count.
    pub count: u32,
}

impl ExpectedHeadersResponse {
    /// A bounded expected response.
    pub fn new(start_height: Height, count: u32, max: u32) -> (expected: Result<
        Self,
        HeaderSyncWireError,
    >)
        ensures
            expected == (if 1 <= count <= max {
                Ok::<Self, HeaderSyncWireError>(ExpectedHeadersResponse { start_height, count })
            } else {
                Err(HeaderSyncWireError::InvalidGetHeadersCount { count, max })
            }),
    {
        match validate_get_headers_count(count, max) {
            Ok(()) => Ok(ExpectedHeadersResponse { start_height, count }),
            Err(error) => Err(error),
        }
    }
}

} // verus!
