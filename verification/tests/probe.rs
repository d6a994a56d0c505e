use ragkit_desktop::probe::{
    health_url, is_ready, on_reply, on_wake, HealthReply, ProbeStep, POLL_INTERVAL_MS,
    POLL_TIMEOUT_MS, READINESS_DEADLINE_MS,
};
use ragkit_desktop::status::HttpStatus;

fn answered(code: u16) -> HealthReply {
    HealthReply::Answered(HttpStatus::new(code).unwrap())
}

/// Runs the probe on a simulated clock against `replies`, each with the time
/// it takes to come back; returns the last step and the time it was taken at.
fn run(deadline_ms: u64, replies: &[(HealthReply, u64)]) -> (ProbeStep, u64) {
    let mut elapsed = 0;
    let mut i = 0;
    loop {
        match on_wake(elapsed, deadline_ms) {
            ProbeStep::Poll => {}
            step => return (step, elapsed),
        }
        let (reply, latency) = replies[i];
        i += 1;
        elapsed += latency;
        match on_reply(&reply) {
            ProbeStep::Sleep => elapsed += POLL_INTERVAL_MS,
            step => return (step, elapsed),
        }
    }
}

#[test]
fn probe_constants() {
    assert_eq!(POLL_INTERVAL_MS, 250);
    assert_eq!(POLL_TIMEOUT_MS, 2000);
    assert_eq!(READINESS_DEADLINE_MS, 30_000);
}

#[test]
fn health_url_names_port() {
    assert_eq!(health_url(8100), "http://127.0.0.1:8100/health");
    assert_eq!(health_url(8199), "http://127.0.0.1:8199/health");
}

#[test]
fn only_success_status_shows_ready() {
    assert!(is_ready(&answered(200)));
    assert!(is_ready(&answered(299)));
    assert!(!is_ready(&answered(199)));
    assert!(!is_ready(&answered(300)));
    assert!(!is_ready(&answered(500)));
    assert!(!is_ready(&HealthReply::Unreachable));
}

#[test]
fn reply_step_is_ready_or_sleep() {
    assert_eq!(on_reply(&answered(200)), ProbeStep::Ready);
    assert_eq!(on_reply(&answered(404)), ProbeStep::Sleep);
    assert_eq!(on_reply(&HealthReply::Unreachable), ProbeStep::Sleep);
}

#[test]
fn wake_step_polls_before_deadline_only() {
    assert_eq!(on_wake(0, 30_000), ProbeStep::Poll);
    assert_eq!(on_wake(29_999, 30_000), ProbeStep::Poll);
    assert_eq!(on_wake(30_000, 30_000), ProbeStep::TimedOut);
    assert_eq!(on_wake(30_001, 30_000), ProbeStep::TimedOut);
    assert_eq!(on_wake(0, 0), ProbeStep::TimedOut);
    assert_eq!(on_wake(u64::MAX, u64::MAX), ProbeStep::TimedOut);
}

#[test]
fn always_failing_endpoint_times_out_within_one_interval_of_deadline() {
    let replies = vec![(answered(500), 0u64); 200];
    for deadline in [0u64, 1, 249, 250, 251, 1000, 30_000] {
        let (step, at) = run(deadline, &replies);
        assert_eq!(step, ProbeStep::TimedOut);
        assert!(at >= deadline);
        assert!(at < deadline + POLL_INTERVAL_MS);
    }
    assert_eq!(run(30_000, &replies), (ProbeStep::TimedOut, 30_000));
    assert_eq!(run(1000, &replies), (ProbeStep::TimedOut, 1000));
    assert_eq!(run(251, &replies), (ProbeStep::TimedOut, 500));
}

#[test]
fn slow_failing_polls_time_out_within_one_poll_and_one_interval() {
    let replies = vec![(HealthReply::Unreachable, 2000u64); 50];
    let (step, at) = run(30_000, &replies);
    assert_eq!(step, ProbeStep::TimedOut);
    assert_eq!(at, 31_500);
    assert!(at < 30_000 + 2000 + 250);
}

#[test]
fn ready_after_three_failures_at_750_ms() {
    let replies = vec![
        (HealthReply::Unreachable, 0u64),
        (answered(503), 0),
        (HealthReply::Unreachable, 0),
        (answered(200), 0),
    ];
    assert_eq!(run(30_000, &replies), (ProbeStep::Ready, 750));
}
