//! Waiting for a freshly launched backend to answer its health endpoint.
//!
//! The probe alternates a short HTTP GET with a fixed sleep. Before each GET
//! it looks at the time that has passed: once the deadline is reached it gives
//! up. Only a response with a success status ends the wait well; every other
//! response, and every connection error, means "not ready yet".

use vstd::prelude::*;
use crate::status::{success_status, HttpStatus};
use crate::text::{decimal, push_decimal};

verus! {

/// The sleep between two polls, in milliseconds.
pub const POLL_INTERVAL_MS: u64 = 250;

/// The time allowed to a single poll, in milliseconds. It is separate from the
/// deadline of the whole wait, so that one hung connection cannot use it up.
pub const POLL_TIMEOUT_MS: u64 = 2000;

/// The deadline that a start allows the whole wait, in milliseconds.
pub const READINESS_DEADLINE_MS: u64 = 30000;

/// What came of one poll of the health endpoint.
#[derive(Clone, Copy, Debug, PartialEq, Eq)]
pub enum HealthReply {
    /// A response arrived, with this status.
    Answered(HttpStatus),
    /// No response: the connection failed or the poll timed out.
    Unreachable,
}

/// What the probe does next.
#[derive(Clone, Copy, Debug, PartialEq, Eq, Structural)]
pub enum ProbeStep {
    /// Poll the health endpoint.
    Poll,
    /// Sleep for the polling interval, then look at the clock again.
    Sleep,
    /// The backend is ready.
    Ready,
    /// The deadline has passed.
    TimedOut,
}

/// The reply shows a ready backend: a response with a success status.
pub open spec fn shows_ready(reply: HealthReply) -> bool {
    match reply {
        HealthReply::Answered(status) => success_status(status@),
        HealthReply::Unreachable => false,
    }
}

/// The step taken with `elapsed` milliseconds gone of a wait that may last
/// `deadline`: another poll while the deadline lies ahead, else time-out.
pub open spec fn wake_step(elapsed: int, deadline: int) -> ProbeStep {
    if elapsed < deadline {
        ProbeStep::Poll
    } else {
        ProbeStep::TimedOut
    }
}

/// The step taken after a poll: done when it showed a ready backend, else a
/// sleep. A failed poll never ends the wait by itself.
pub open spec fn reply_step(ready: bool) -> ProbeStep {
    if ready {
        ProbeStep::Ready
    } else {
        ProbeStep::Sleep
    }
}

/// The text of the health endpoint's URL on `port`.
pub open spec fn health_url_text(port: u16) -> Seq<char> {
    "http://127.0.0.1:"@ + decimal(port as nat) + "/health"@
}

/// The URL that the probe polls.
pub fn health_url(port: u16) -> (url: String)
    ensures
        url@ == health_url_text(port),
{
    let mut url = String::from_str("http://127.0.0.1:");
    push_decimal(&mut url, port as u64);
    url.append("/health");
    url
}

/// Whether a reply of the health endpoint shows a ready backend.
pub fn is_ready(reply: &HealthReply) -> (ready: bool)
    ensures
        ready == shows_ready(*reply),
{
    match reply {
        HealthReply::Answered(status) => status.is_success(),
        HealthReply::Unreachable => false,
    }
}

/// Decides, at the head of each round, whether the probe polls once more or
/// gives up: it gives up exactly when `elapsed_ms` has reached `deadline_ms`.
pub fn on_wake(elapsed_ms: u64, deadline_ms: u64) -> (step: ProbeStep)
    ensures
        step == wake_step(elapsed_ms as int, deadline_ms as int),
{
    if elapsed_ms < deadline_ms {
        ProbeStep::Poll
    } else {
        ProbeStep::TimedOut
    }
}

/// Decides what follows a poll: the wait ends well exactly when the reply
/// shows a ready backend; after any other reply the probe sleeps.
pub fn on_reply(reply: &HealthReply) -> (step: ProbeStep)
    ensures
        step == reply_step(shows_ready(*reply)),
{
    if is_ready(reply) {
        ProbeStep::Ready
    } else {
        ProbeStep::Sleep
    }
}

/// One poll as the clock sees it: whether it showed a ready backend, and how
/// long it took to come back.
pub struct Attempt {
    pub ready: bool,
    pub latency: nat,
}

/// How a wait ends.
pub enum ProbeOutcome {
    /// A poll showed a ready backend, `at` milliseconds into the wait.
    Ready { at: nat },
    /// The probe gave up, `at` milliseconds into the wait.
    TimedOut { at: nat },
    /// The attempts ran out before the wait was decided.
    Undecided,
}

/// The course of a wait that stands `elapsed` milliseconds in, sleeps
/// `interval` between polls and meets `attempts` in turn.
pub open spec fn probe_run(
    elapsed: nat,
    deadline: nat,
    interval: nat,
    attempts: Seq<Attempt>,
) -> ProbeOutcome
    decreases attempts.len(),
{
    if wake_step(elapsed as int, deadline as int) == ProbeStep::TimedOut {
        ProbeOutcome::TimedOut { at: elapsed }
    } else if attempts.len() == 0 {
        ProbeOutcome::Undecided
    } else if reply_step(attempts[0].ready) == ProbeStep::Ready {
        ProbeOutcome::Ready { at: elapsed + attempts[0].latency }
    } else {
        probe_run(
            elapsed + attempts[0].latency + interval,
            deadline,
            interval,
            attempts.drop_first(),
        )
    }
}

/// The probe never gives up before its deadline, and it reports a ready
/// backend only for a poll that showed one.
pub proof fn lemma_probe_never_early(
    elapsed: nat,
    deadline: nat,
    interval: nat,
    attempts: Seq<Attempt>,
)
    ensures
        match probe_run(elapsed, deadline, interval, attempts) {
            ProbeOutcome::TimedOut { at } => at >= deadline && at >= elapsed,
            ProbeOutcome::Ready { at } => exists|i: int|
                0 <= i < attempts.len() && (#[trigger] attempts[i]).ready,
            ProbeOutcome::Undecided => true,
        },
    decreases attempts.len(),
{
    if elapsed < deadline && attempts.len() > 0 {
        if attempts[0].ready {
            assert(attempts[0].ready);
        } else {
            let rest = attempts.drop_first();
            lemma_probe_never_early(
                elapsed + attempts[0].latency + interval,
                deadline,
                interval,
                rest,
            );
            if probe_run(elapsed, deadline, interval, attempts) is Ready {
                let i = choose|i: int| 0 <= i < rest.len() && (#[trigger] rest[i]).ready;
                assert(attempts[i + 1].ready);
            }
        }
    }
}

/// Against a backend that never shows ready, a wait that started before its
/// deadline gives up less than one poll and one sleep after the deadline:
/// with polls that each come back within `slowest` milliseconds, it gives up
/// before `deadline + slowest + interval`.
pub proof fn lemma_probe_times_out_soon(
    elapsed: nat,
    deadline: nat,
    interval: nat,
    slowest: nat,
    attempts: Seq<Attempt>,
)
    requires
        elapsed < deadline + slowest + interval,
        forall|i: int|
            0 <= i < attempts.len() ==> !(#[trigger] attempts[i]).ready && attempts[i].latency
                <= slowest,
    ensures
        match probe_run(elapsed, deadline, interval, attempts) {
            ProbeOutcome::TimedOut { at } => deadline <= at < deadline + slowest + interval,
            ProbeOutcome::Ready { at } => false,
            ProbeOutcome::Undecided => true,
        },
    decreases attempts.len(),
{
    if elapsed < deadline && attempts.len() > 0 {
        let rest = attempts.drop_first();
        assert(!attempts[0].ready && attempts[0].latency <= slowest);
        assert forall|i: int| 0 <= i < rest.len() implies !(#[trigger] rest[i]).ready
            && rest[i].latency <= slowest by {
            assert(rest[i] == attempts[i + 1]);
        }
        lemma_probe_times_out_soon(
            elapsed + attempts[0].latency + interval,
            deadline,
            interval,
            slowest,
            rest,
        );
    }
}

/// Against a health endpoint that answers every poll at once with a failure,
/// the wait ends in a time-out, not before the deadline and less than one
/// polling interval after it.
pub proof fn lemma_failing_endpoint_times_out(
    deadline: nat,
    interval: nat,
    attempts: Seq<Attempt>,
)
    requires
        interval > 0,
        forall|i: int|
            0 <= i < attempts.len() ==> !(#[trigger] attempts[i]).ready && attempts[i].latency
                == 0,
    ensures
        match probe_run(0, deadline, interval, attempts) {
            ProbeOutcome::TimedOut { at } => deadline <= at < deadline + interval,
            ProbeOutcome::Ready { at } => false,
            ProbeOutcome::Undecided => true,
        },
{
    lemma_probe_times_out_soon(0, deadline, interval, 0, attempts);
}

/// The wait does not go on for ever: once the sleeps alone add up to the time
/// that was left, it has been decided.
pub proof fn lemma_probe_is_decided(
    elapsed: nat,
    deadline: nat,
    interval: nat,
    attempts: Seq<Attempt>,
)
    requires
        elapsed + attempts.len() * interval >= deadline,
    ensures
        !(probe_run(elapsed, deadline, interval, attempts) is Undecided),
    decreases attempts.len(),
{
    if elapsed < deadline {
        if attempts.len() == 0 {
            assert(attempts.len() * interval == 0) by (nonlinear_arith)
                requires
                    attempts.len() == 0,
            ;
        } else if !attempts[0].ready {
            let rest = attempts.drop_first();
            assert(attempts.len() * interval == rest.len() * interval + interval)
                by (nonlinear_arith)
                requires
                    rest.len() + 1 == attempts.len(),
            ;
            lemma_probe_is_decided(
                elapsed + attempts[0].latency + interval,
                deadline,
                interval,
                rest,
            );
        }
    }
}

} // verus!
