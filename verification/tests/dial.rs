use zakura::dial::{
    native_bootstrap_dial, native_dial_supervised, DialResult, DialStep, DialSupervisor,
    NativeDialEvent, NativeDialStep, RedialPolicy,
};
use zakura::error::{ResourceCap, ZakuraHandlerError};
use zakura::limits::{ZakuraLimits, ZakuraLocalLimits};
use zakura::time::Duration;

/// Drives a supervisor over dials that all end the same way, at most `most` of them.
fn count_dials(
    policy: RedialPolicy,
    registered: bool,
    result: DialResult,
    most: usize,
) -> (usize, bool) {
    let mut supervisor = DialSupervisor::new(policy);
    let mut dials = 0;
    let mut step = DialStep::Check;
    loop {
        step = match step {
            DialStep::Stop => return (dials, true),
            DialStep::Check => supervisor.on_check(registered),
            DialStep::WaitForChange => supervisor.on_change(false),
            DialStep::Dial => {
                if dials == most {
                    return (dials, false);
                }
                dials += 1;
                supervisor.on_dial(result)
            }
            DialStep::BackOff(_) => supervisor.on_backoff(false),
        };
    }
}

fn connect_once() -> RedialPolicy {
    RedialPolicy::connect_once(Duration::from_millis(1), Duration::from_millis(1), 3)
}

#[test]
fn dial_supervisor_connect_once_gives_up_after_max_attempts() {
    assert_eq!(
        count_dials(connect_once(), false, DialResult::Failed, 100),
        (3, true)
    );
}

#[test]
fn dial_supervisor_connect_once_stops_after_healthy_connection() {
    assert_eq!(
        count_dials(connect_once(), false, DialResult::Healthy, 100),
        (1, true)
    );
}

#[test]
fn dial_supervisor_skips_already_registered_peer() {
    assert_eq!(
        count_dials(connect_once(), true, DialResult::Failed, 100),
        (0, true)
    );
}

#[test]
fn dial_supervisor_maintain_redials_after_drop() {
    let policy = RedialPolicy::maintain(Duration::from_millis(1), Duration::from_millis(1));
    assert_eq!(
        count_dials(policy, false, DialResult::Healthy, 100),
        (100, false)
    );
    assert_eq!(
        count_dials(policy, false, DialResult::Failed, 100),
        (100, false)
    );
}

#[test]
fn backoffs_double_up_to_the_longest() {
    let mut supervisor = DialSupervisor::new(RedialPolicy::bootstrap());
    let mut seconds = Vec::new();
    for _ in 0..7 {
        match supervisor.on_dial(DialResult::Failed) {
            DialStep::BackOff(backoff) => seconds.push(backoff.as_millis() / 1_000),
            other => panic!("expected a backoff, got {other:?}"),
        }
        assert_eq!(supervisor.on_backoff(false), DialStep::Check);
    }
    assert_eq!(seconds, [1, 2, 4, 8, 16, 30, 30]);

    // A healthy connection starts over.
    assert_eq!(supervisor.on_dial(DialResult::Healthy), DialStep::Check);
    assert_eq!(
        supervisor.on_dial(DialResult::Failed),
        DialStep::BackOff(Duration::from_secs(1))
    );
}

#[test]
fn a_closed_watch_stops_every_supervisor() {
    let mut supervisor = DialSupervisor::new(RedialPolicy::bootstrap());
    assert_eq!(supervisor.on_check(true), DialStep::WaitForChange);
    assert_eq!(supervisor.on_change(true), DialStep::Stop);
    assert_eq!(supervisor.on_backoff(true), DialStep::Stop);
}

#[test]
fn upgraded_peers_are_dialed_three_times() {
    let policy = RedialPolicy::upgrade();
    assert_eq!(policy.max_attempts, Some(3));
    assert!(!policy.redial_after_drop);
    assert_eq!(policy.initial_backoff, Duration::from_secs(1));
    assert_eq!(policy.max_backoff, Duration::from_secs(30));
    assert_eq!(
        count_dials(
            RedialPolicy::connect_once(Duration::from_secs(1), Duration::from_secs(1), 0),
            false,
            DialResult::Failed,
            100
        ),
        (1, true)
    );
}

#[test]
fn only_a_served_minute_counts_as_healthy() {
    let minute = Duration::from_secs(60);
    assert_eq!(native_dial_supervised(true, minute), DialResult::Healthy);
    assert_eq!(
        native_dial_supervised(true, Duration::from_millis(59_999)),
        DialResult::Failed
    );
    assert_eq!(native_dial_supervised(false, minute), DialResult::Failed);
}

fn local_limits() -> ZakuraLocalLimits {
    ZakuraLocalLimits {
        max_connections: 4,
        max_pending_handshakes: 2,
        quic_idle_timeout: Duration::from_secs(150),
        keep_alive_interval: Duration::from_secs(10),
        prelude_timeout: Duration::from_secs(3),
        control_timeout: Duration::from_secs(10),
        stream_open_rate_per_second: 16,
        message_rate_per_second: 128,
        max_frame_bytes: 1_000,
        max_message_bytes: 2_000,
        max_open_streams: 10,
        max_inbound_queue_depth: 20,
    }
}

#[test]
fn native_dials_pass_both_caps() {
    let limits = local_limits();
    let step = |event| native_bootstrap_dial(event, &limits);
    assert_eq!(
        step(NativeDialEvent::Admission { has_place: true }),
        NativeDialStep::Connect
    );
    assert_eq!(
        step(NativeDialEvent::Admission { has_place: false }),
        NativeDialStep::Fail(ZakuraHandlerError::ResourceLimit(ResourceCap::Admission))
    );
    assert_eq!(
        step(NativeDialEvent::Connected(Ok(()))),
        NativeDialStep::SeekHandshakePlace
    );
    assert_eq!(
        step(NativeDialEvent::Connected(Err(
            ZakuraHandlerError::Transport
        ))),
        NativeDialStep::Fail(ZakuraHandlerError::Transport)
    );
    assert_eq!(
        step(NativeDialEvent::HandshakePlace { has_place: true }),
        NativeDialStep::Handshake
    );
    assert_eq!(
        step(NativeDialEvent::HandshakePlace { has_place: false }),
        NativeDialStep::Fail(ZakuraHandlerError::ResourceLimit(
            ResourceCap::PendingHandshake
        ))
    );
    let negotiated = ZakuraLimits {
        max_frame_bytes: 500,
        max_message_bytes: 5_000,
        max_open_streams: 5,
        max_inbound_queue_depth: 50,
        idle_timeout_millis: 1_000,
    };
    match step(NativeDialEvent::Negotiated(Ok(negotiated))) {
        NativeDialStep::Serve(served) => {
            assert_eq!(served.max_frame_bytes, 500);
            assert_eq!(served.max_message_bytes, 2_000);
            assert_eq!(served.max_open_streams, 5);
            assert_eq!(served.max_inbound_queue_depth, 20);
            assert_eq!(served.idle_timeout, Duration::from_secs(1));
        }
        other => panic!("expected to serve, got {other:?}"),
    }
    assert_eq!(
        step(NativeDialEvent::Negotiated(Err(
            ZakuraHandlerError::Validation
        ))),
        NativeDialStep::Fail(ZakuraHandlerError::Validation)
    );
}
