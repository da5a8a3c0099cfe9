//! When and how peers are dialed, redialed and given up.

use crate::error::{ResourceCap, ZakuraHandlerError};
use crate::limits::{ZakuraAcceptedLimits, ZakuraConnectionLimits, ZakuraLocalLimits};
use crate::time::{Duration, NANOS_PER_SEC};
use vstd::prelude::*;

verus! {

/// First backoff of a redial, in seconds.
pub const DEFAULT_ZAKURA_REDIAL_INITIAL_BACKOFF_SECS: u64 = 1;

/// Longest backoff of a redial, in seconds.
pub const DEFAULT_ZAKURA_REDIAL_MAX_BACKOFF_SECS: u64 = 30;

/// How long a connection is served to count as healthy, in seconds.
pub const ZAKURA_REDIAL_HEALTHY_CONNECTION_SECS: u64 = 60;

/// How often the dial of an upgraded peer is tried.
pub const ZAKURA_UPGRADE_DIAL_ATTEMPTS: usize = 3;

/// How a peer is dialed again.
#[derive(Copy, Clone, Debug, PartialEq, Eq, Structural)]
pub struct RedialPolicy {
    /// The backoff after the first failure.
    pub initial_backoff: Duration,
    /// The longest backoff.
    pub max_backoff: Duration,
    /// After how many consecutive failures to give up; never where there is none.
    pub max_attempts: Option<usize>,
    /// Whether to dial again after a healthy connection dropped.
    pub redial_after_drop: bool,
}

impl RedialPolicy {
    /// Both backoffs are representable.
    pub open spec fn wf(self) -> bool {
        self.initial_backoff.wf() && self.max_backoff.wf()
    }

    /// Keeps a connection up for ever.
    pub fn maintain(initial_backoff: Duration, max_backoff: Duration) -> (policy: Self)
        ensures
            policy == (RedialPolicy {
                initial_backoff,
                max_backoff,
                max_attempts: None,
                redial_after_drop: true,
            }),
    {
        RedialPolicy { initial_backoff, max_backoff, max_attempts: None, redial_after_drop: true }
    }

    /// Connects once and tries only the first dial again, up to `attempts` times.
    pub fn connect_once(
        initial_backoff: Duration,
        max_backoff: Duration,
        attempts: usize,
    ) -> (policy: Self)
        ensures
            policy == (RedialPolicy {
                initial_backoff,
                max_backoff,
                max_attempts: Some(attempts),
                redial_after_drop: false,
            }),
    {
        RedialPolicy {
            initial_backoff,
            max_backoff,
            max_attempts: Some(attempts),
            redial_after_drop: false,
        }
    }

    /// The policy of configured bootstrap peers.
    pub fn bootstrap() -> (policy: Self)
        ensures
            policy.wf(),
            policy.initial_backoff.nanos == DEFAULT_ZAKURA_REDIAL_INITIAL_BACKOFF_SECS
                * NANOS_PER_SEC,
            policy.max_backoff.nanos == DEFAULT_ZAKURA_REDIAL_MAX_BACKOFF_SECS
                * NANOS_PER_SEC,
            policy.max_attempts is None,
            policy.redial_after_drop,
    {
        RedialPolicy::maintain(
            Duration::from_secs(DEFAULT_ZAKURA_REDIAL_INITIAL_BACKOFF_SECS),
            Duration::from_secs(DEFAULT_ZAKURA_REDIAL_MAX_BACKOFF_SECS),
        )
    }

    /// The policy of peers that were upgraded from a legacy connection.
    pub fn upgrade() -> (policy: Self)
        ensures
            policy.wf(),
            policy.initial_backoff.nanos == DEFAULT_ZAKURA_REDIAL_INITIAL_BACKOFF_SECS
                * NANOS_PER_SEC,
            policy.max_backoff.nanos == DEFAULT_ZAKURA_REDIAL_MAX_BACKOFF_SECS
                * NANOS_PER_SEC,
            policy.max_attempts == Some(ZAKURA_UPGRADE_DIAL_ATTEMPTS),
            !policy.redial_after_drop,
    {
        RedialPolicy::connect_once(
            Duration::from_secs(DEFAULT_ZAKURA_REDIAL_INITIAL_BACKOFF_SECS),
            Duration::from_secs(DEFAULT_ZAKURA_REDIAL_MAX_BACKOFF_SECS),
            ZAKURA_UPGRADE_DIAL_ATTEMPTS,
        )
    }
}

/// How one dial ended.
#[derive(Copy, Clone, Debug, PartialEq, Eq, Structural)]
pub enum DialResult {
    /// Connected and served long enough to count as healthy.
    Healthy,
    /// Not connected, or served only briefly.
    Failed,
}

/// Judges a dial by whether it was served and for how long.
pub fn native_dial_supervised(served: bool, elapsed: Duration) -> (result: DialResult)
    ensures
        result == (if served && elapsed.nanos >= ZAKURA_REDIAL_HEALTHY_CONNECTION_SECS
            * NANOS_PER_SEC {
            DialResult::Healthy
        } else {
            DialResult::Failed
        }),
{
    let healthy = Duration::from_secs(ZAKURA_REDIAL_HEALTHY_CONNECTION_SECS);
    if served && elapsed.nanos >= healthy.nanos {
        DialResult::Healthy
    } else {
        DialResult::Failed
    }
}

/// What the dial supervisor of a peer does next.
#[derive(Copy, Clone, Debug, PartialEq, Eq, Structural)]
pub enum DialStep {
    /// Stop.
    Stop,
    /// Look whether the peer is registered.
    Check,
    /// Wait for the registered peers to change.
    WaitForChange,
    /// Dial.
    Dial,
    /// Wait for this long, or for the registered peers to change.
    BackOff(Duration),
}

/// The dial supervisor of one peer.
#[derive(Copy, Clone, Debug, PartialEq, Eq, Structural)]
pub struct DialSupervisor {
    /// The policy.
    pub policy: RedialPolicy,
    /// The next backoff.
    pub backoff: Duration,
    /// The consecutive failures.
    pub failures: usize,
}

impl DialSupervisor {
    /// All durations are representable.
    pub open spec fn wf(self) -> bool {
        self.policy.wf() && self.backoff.wf()
    }

    /// A supervisor that has not dialed yet.
    pub open spec fn fresh(policy: RedialPolicy) -> DialSupervisor {
        DialSupervisor { policy, backoff: policy.initial_backoff, failures: 0 }
    }

    /// A supervisor that has not dialed yet.
    pub fn new(policy: RedialPolicy) -> (supervisor: Self)
        ensures
            supervisor == DialSupervisor::fresh(policy),
    {
        DialSupervisor { policy, backoff: policy.initial_backoff, failures: 0 }
    }

    /// What follows the look at the registered peers. A peer that is registered is not
    /// dialed.
    pub fn on_check(&self, registered: bool) -> (step: DialStep)
        ensures
            step == (if !registered {
                DialStep::Dial
            } else if self.policy.redial_after_drop {
                DialStep::WaitForChange
            } else {
                DialStep::Stop
            }),
    {
        if !registered {
            DialStep::Dial
        } else if self.policy.redial_after_drop {
            DialStep::WaitForChange
        } else {
            DialStep::Stop
        }
    }

    /// What follows a change of the registered peers, or the end of its source.
    pub fn on_change(&mut self, closed: bool) -> (step: DialStep)
        ensures
            step == (if closed {
                DialStep::Stop
            } else {
                DialStep::Check
            }),
            *final(self) == (if closed {
                *old(self)
            } else {
                DialSupervisor::fresh(old(self).policy)
            }),
    {
        if closed {
            return DialStep::Stop;
        }
        *self = DialSupervisor::new(self.policy);
        DialStep::Check
    }

    /// What follows a dial.
    pub open spec fn dial_step(self, result: DialResult) -> DialStep {
        match result {
            DialResult::Healthy => if self.policy.redial_after_drop {
                DialStep::Check
            } else {
                DialStep::Stop
            },
            DialResult::Failed => match self.policy.max_attempts {
                Some(max) if self.failures + 1 >= max => DialStep::Stop,
                _ => DialStep::BackOff(self.backoff),
            },
        }
    }

    /// The supervisor after a dial.
    pub open spec fn after_dial(self, result: DialResult) -> DialSupervisor {
        match result {
            DialResult::Healthy => if self.policy.redial_after_drop {
                DialSupervisor::fresh(self.policy)
            } else {
                self
            },
            DialResult::Failed => DialSupervisor {
                failures: if self.failures < usize::MAX {
                    (self.failures + 1) as usize
                } else {
                    self.failures
                },
                ..self
            },
        }
    }

    /// What follows a dial.
    pub fn on_dial(&mut self, result: DialResult) -> (step: DialStep)
        ensures
            step == old(self).dial_step(result),
            *final(self) == old(self).after_dial(result),
    {
        match result {
            DialResult::Healthy => {
                if !self.policy.redial_after_drop {
                    return DialStep::Stop;
                }
                *self = DialSupervisor::new(self.policy);
                DialStep::Check
            },
            DialResult::Failed => {
                let before: usize = self.failures;
                if self.failures < usize::MAX {
                    self.failures = self.failures + 1;
                }
                match self.policy.max_attempts {
                    Some(max) => if before >= max || self.failures >= max {
                        DialStep::Stop
                    } else {
                        DialStep::BackOff(self.backoff)
                    },
                    None => DialStep::BackOff(self.backoff),
                }
            },
        }
    }

    /// The backoff after this one: twice as long, up to the longest.
    pub open spec fn next_backoff(self) -> int {
        if 2 * self.backoff.nanos <= self.policy.max_backoff.nanos {
            2 * self.backoff.nanos
        } else {
            self.policy.max_backoff.nanos as int
        }
    }

    /// The supervisor after a backoff.
    pub open spec fn after_backoff(self) -> DialSupervisor {
        DialSupervisor { backoff: Duration { nanos: self.next_backoff() as u128 }, ..self }
    }

    /// What follows a backoff, or the end of the source of registered peers.
    pub fn on_backoff(&mut self, closed: bool) -> (step: DialStep)
        requires
            old(self).wf(),
        ensures
            final(self).wf(),
            step == (if closed {
                DialStep::Stop
            } else {
                DialStep::Check
            }),
            *final(self) == (if closed {
                *old(self)
            } else {
                old(self).after_backoff()
            }),
    {
        if closed {
            return DialStep::Stop;
        }
        self.backoff = self.backoff.saturating_double().min(self.policy.max_backoff);
        DialStep::Check
    }
}

/// How often a supervisor dials over a run of dials with these results, none of which
/// finds the peer registered.
pub open spec fn dials_made(supervisor: DialSupervisor, results: Seq<DialResult>) -> nat
    decreases results.len(),
{
    if results.len() == 0 {
        0
    } else {
        let after = supervisor.after_dial(results[0]);
        match supervisor.dial_step(results[0]) {
            DialStep::Stop => 1,
            DialStep::BackOff(_) => 1 + dials_made(after.after_backoff(), results.drop_first()),
            _ => 1 + dials_made(after, results.drop_first()),
        }
    }
}

/// A supervisor that connects once gives up: however its dials end, it makes at most as
/// many as its policy allows, and at least one.
pub proof fn law_connect_once_gives_up(
    initial_backoff: Duration,
    max_backoff: Duration,
    attempts: usize,
    results: Seq<DialResult>,
)
    ensures
        dials_made(
            DialSupervisor::fresh(
                RedialPolicy {
                    initial_backoff,
                    max_backoff,
                    max_attempts: Some(attempts),
                    redial_after_drop: false,
                },
            ),
            results,
        ) <= (if attempts >= 1 {
            attempts as nat
        } else {
            1
        }),
{
    lemma_dials_left(
        DialSupervisor::fresh(
            RedialPolicy {
                initial_backoff,
                max_backoff,
                max_attempts: Some(attempts),
                redial_after_drop: false,
            },
        ),
        attempts,
        results,
    );
}

/// Each failure uses up one of the dials that are left.
proof fn lemma_dials_left(supervisor: DialSupervisor, attempts: usize, results: Seq<DialResult>)
    requires
        supervisor.policy.max_attempts == Some(attempts),
        !supervisor.policy.redial_after_drop,
    ensures
        dials_made(supervisor, results) <= (if attempts > supervisor.failures {
            (attempts - supervisor.failures) as nat
        } else {
            1
        }),
    decreases results.len(),
{
    if results.len() > 0 && supervisor.dial_step(results[0]) != DialStep::Stop {
        lemma_dials_left(
            supervisor.after_dial(results[0]).after_backoff(),
            attempts,
            results.drop_first(),
        );
    }
}

/// A supervisor that maintains a connection never gives up by itself: it dials as often
/// as there are results.
pub proof fn law_maintained_peers_are_never_given_up(
    supervisor: DialSupervisor,
    results: Seq<DialResult>,
)
    requires
        supervisor.policy.max_attempts is None,
        supervisor.policy.redial_after_drop,
    ensures
        dials_made(supervisor, results) == results.len(),
    decreases results.len(),
{
    if results.len() > 0 {
        let after = supervisor.after_dial(results[0]);
        law_maintained_peers_are_never_given_up(after, results.drop_first());
        law_maintained_peers_are_never_given_up(after.after_backoff(), results.drop_first());
    }
}

/// Backoffs grow up to the longest one and never past it.
pub proof fn law_backoff_is_bounded(supervisor: DialSupervisor)
    requires
        supervisor.wf(),
        supervisor.backoff.nanos <= supervisor.policy.max_backoff.nanos,
    ensures
        supervisor.backoff.nanos <= supervisor.after_backoff().backoff.nanos
            <= supervisor.policy.max_backoff.nanos,
        supervisor.after_backoff().backoff.nanos == 2 * supervisor.backoff.nanos
            || supervisor.after_backoff().backoff.nanos == supervisor.policy.max_backoff.nanos,
        supervisor.after_backoff().wf(),
{
}

/// What happened during the dial of a node.
#[derive(Copy, Clone, Debug, PartialEq, Eq)]
pub enum NativeDialEvent {
    /// A place for another connection was sought.
    Admission {
        /// Whether there was one.
        has_place: bool,
    },
    /// The connection was tried.
    Connected(Result<(), ZakuraHandlerError>),
    /// A place for another handshake was sought.
    HandshakePlace {
        /// Whether there was one.
        has_place: bool,
    },
    /// The handshake ended.
    Negotiated(Result<ZakuraAcceptedLimits, ZakuraHandlerError>),
}

/// What the dial of a node does next.
#[derive(Copy, Clone, Debug, PartialEq, Eq, Structural)]
pub enum NativeDialStep {
    /// Connect to the node.
    Connect,
    /// Seek a place for a handshake.
    SeekHandshakePlace,
    /// Run the control handshake.
    Handshake,
    /// Register the peer and serve it under these limits.
    Serve(ZakuraConnectionLimits),
    /// The dial failed.
    Fail(ZakuraHandlerError),
}

/// What follows each event of a dial.
pub open spec fn native_dial_next(
    event: NativeDialEvent,
    limits: ZakuraLocalLimits,
) -> NativeDialStep {
    match event {
        NativeDialEvent::Admission { has_place } => if has_place {
            NativeDialStep::Connect
        } else {
            NativeDialStep::Fail(ZakuraHandlerError::ResourceLimit(ResourceCap::Admission))
        },
        NativeDialEvent::Connected(Ok(())) => NativeDialStep::SeekHandshakePlace,
        NativeDialEvent::Connected(Err(error)) => NativeDialStep::Fail(error),
        NativeDialEvent::HandshakePlace { has_place } => if has_place {
            NativeDialStep::Handshake
        } else {
            NativeDialStep::Fail(ZakuraHandlerError::ResourceLimit(ResourceCap::PendingHandshake))
        },
        NativeDialEvent::Negotiated(Ok(negotiated)) => NativeDialStep::Serve(
            limits.clamped(negotiated),
        ),
        NativeDialEvent::Negotiated(Err(error)) => NativeDialStep::Fail(error),
    }
}

/// Decides what the dial of a node does next.
pub fn native_bootstrap_dial(event: NativeDialEvent, limits: &ZakuraLocalLimits) -> (step:
    NativeDialStep)
    ensures
        step == native_dial_next(event, *limits),
{
    match event {
        NativeDialEvent::Admission { has_place } => if has_place {
            NativeDialStep::Connect
        } else {
            NativeDialStep::Fail(ZakuraHandlerError::ResourceLimit(ResourceCap::Admission))
        },
        NativeDialEvent::Connected(Ok(())) => NativeDialStep::SeekHandshakePlace,
        NativeDialEvent::Connected(Err(error)) => NativeDialStep::Fail(error),
        NativeDialEvent::HandshakePlace { has_place } => if has_place {
            NativeDialStep::Handshake
        } else {
            NativeDialStep::Fail(ZakuraHandlerError::ResourceLimit(ResourceCap::PendingHandshake))
        },
        NativeDialEvent::Negotiated(Ok(negotiated)) => NativeDialStep::Serve(
            limits.clamp(&negotiated),
        ),
        NativeDialEvent::Negotiated(Err(error)) => NativeDialStep::Fail(error),
    }
}

/// A failed dial is tried again after the current backoff, exactly while attempts are left,
/// and counts as one failure; nothing else changes with it.
pub proof fn law_failed_dials_are_tried_again(supervisor: DialSupervisor)
    requires
        supervisor.failures < usize::MAX,
    ensures
        ({
            let gives_up = supervisor.policy.max_attempts is Some && supervisor.failures + 1
                >= supervisor.policy.max_attempts->0;
            let step = supervisor.dial_step(DialResult::Failed);
            let after = supervisor.after_dial(DialResult::Failed);
            &&& gives_up ==> step == DialStep::Stop
            &&& !gives_up ==> step == DialStep::BackOff(supervisor.backoff)
            &&& after.failures == supervisor.failures + 1
            &&& after.policy == supervisor.policy
            &&& after.backoff == supervisor.backoff
            &&& after.after_backoff().failures == after.failures
            &&& after.after_backoff().policy == supervisor.policy
        }),
{
}

/// A healthy connection that dropped is dialed again at once, with everything forgotten that
/// failed before, where the policy maintains it; otherwise it was the last.
pub proof fn law_healthy_connections_start_afresh(supervisor: DialSupervisor)
    ensures
        supervisor.policy.redial_after_drop ==> {
            let after = supervisor.after_dial(DialResult::Healthy);
            &&& supervisor.dial_step(DialResult::Healthy) == DialStep::Check
            &&& after.failures == 0
            &&& after.backoff == supervisor.policy.initial_backoff
            &&& after.policy == supervisor.policy
        },
        !supervisor.policy.redial_after_drop ==> supervisor.dial_step(DialResult::Healthy)
            == DialStep::Stop,
{
}

/// A supervisor that connects once uses up its attempts: while its dials fail, it makes as
/// many as its policy allows, and not one less.
pub proof fn law_attempts_are_used_up(supervisor: DialSupervisor, results: Seq<DialResult>)
    requires
        supervisor.policy.max_attempts matches Some(max) && supervisor.failures < max,
        forall|i: int| 0 <= i < results.len() ==> (#[trigger] results[i]) == DialResult::Failed,
    ensures
        ({
            let left = supervisor.policy.max_attempts->0 - supervisor.failures;
            dials_made(supervisor, results) == (if results.len() <= left {
                results.len() as int
            } else {
                left
            })
        }),
    decreases results.len(),
{
    if results.len() > 0 {
        assert(results[0] == DialResult::Failed);
        let after = supervisor.after_dial(results[0]);
        let rest = results.drop_first();
        assert forall|i: int| 0 <= i < rest.len() implies (#[trigger] rest[i])
            == DialResult::Failed by {
            assert(rest[i] == results[i + 1]);
        }
        if supervisor.dial_step(results[0]) != DialStep::Stop {
            law_attempts_are_used_up(after.after_backoff(), rest);
        }
    }
}

/// Each backoff is twice the one before it, up to the longest.
pub proof fn law_backoff_doubles(supervisor: DialSupervisor)
    requires
        supervisor.wf(),
    ensures
        ({
            let next = supervisor.after_backoff().backoff.nanos;
            &&& 2 * supervisor.backoff.nanos <= supervisor.policy.max_backoff.nanos ==> next == 2
                * supervisor.backoff.nanos
            &&& 2 * supervisor.backoff.nanos > supervisor.policy.max_backoff.nanos ==> next
                == supervisor.policy.max_backoff.nanos
        }),
{
}

/// A dial goes from a place to a connection, to a place for the handshake, to the handshake,
/// to service, each exactly where the one before it succeeded; a failure is passed on as it
/// is.
pub proof fn law_dial_goes_step_by_step(event: NativeDialEvent, limits: ZakuraLocalLimits)
    ensures
        ({
            let step = native_dial_next(event, limits);
            &&& step is Connect <==> (event matches NativeDialEvent::Admission { has_place }
                && has_place)
            &&& step is SeekHandshakePlace <==> (event matches NativeDialEvent::Connected(result)
                && result is Ok)
            &&& step is Handshake <==> (event matches NativeDialEvent::HandshakePlace { has_place }
                && has_place)
            &&& step is Serve <==> (event matches NativeDialEvent::Negotiated(result)
                && result is Ok)
            &&& event matches NativeDialEvent::Connected(Err(error)) ==> step
                == NativeDialStep::Fail(error)
            &&& event matches NativeDialEvent::Negotiated(Err(error)) ==> step
                == NativeDialStep::Fail(error)
            &&& event == (NativeDialEvent::Admission { has_place: false }) ==> step
                == NativeDialStep::Fail(
                ZakuraHandlerError::ResourceLimit(ResourceCap::Admission),
            )
            &&& event == (NativeDialEvent::HandshakePlace { has_place: false }) ==> step
                == NativeDialStep::Fail(
                ZakuraHandlerError::ResourceLimit(ResourceCap::PendingHandshake),
            )
        }),
{
}

} // verus!
