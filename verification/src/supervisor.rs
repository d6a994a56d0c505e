//! The supervisor of the backend process.
//!
//! The supervisor owns the one piece of state that the whole application
//! shares: the port on which the backend serves, and the kind of the child
//! process that is running. It decides every step of a start and of a stop;
//! its caller performs the steps (binding, spawning, polling, sleeping,
//! killing) and reports back. Between two reports nothing of the supervisor is
//! borrowed, so a lock around it is held only for the moment of a decision.

use vstd::prelude::*;
use crate::error::StartError;
use crate::launch::LaunchStrategy;
use crate::port::{in_port_range, on_bind_result, port_step, PortStep, FIRST_PORT};
use crate::probe::{
    on_reply,
    on_wake,
    reply_step,
    shows_ready,
    wake_step,
    HealthReply,
    ProbeStep,
    POLL_INTERVAL_MS,
    POLL_TIMEOUT_MS,
    READINESS_DEADLINE_MS,
};
use crate::text::{decimal, push_decimal};

verus! {

/// The time allowed to the request that asks the backend to shut down, in
/// milliseconds.
pub const SHUTDOWN_TIMEOUT_MS: u64 = 5000;

/// The time a backend that was asked to shut down is given to exit by itself,
/// in milliseconds.
pub const SHUTDOWN_GRACE_MS: u64 = 500;

/// Which launch strategy produced the running child. The two kinds are
/// terminated by different means.
#[derive(Clone, Copy, Debug, PartialEq, Eq, Structural)]
pub enum ChildKind {
    /// A direct child process.
    Process,
    /// A sidecar behind the privileged launch channel.
    Sidecar,
}

/// How a child is forced to terminate.
#[derive(Clone, Copy, Debug, PartialEq, Eq, Structural)]
pub enum Termination {
    /// Kill the process and wait until the kill has completed.
    KillAndWait,
    /// Send a kill through the launch channel, without waiting.
    SignalViaChannel,
}

/// Where the supervised backend stands.
#[derive(Clone, Copy, Debug, PartialEq, Eq, Structural)]
pub enum Phase {
    /// Nothing is running and nothing is under way.
    Idle,
    /// Starting: the bind of `candidate` is being tried.
    Scanning { candidate: u16, strategy: LaunchStrategy },
    /// Starting: the child is being spawned for `port`.
    Launching { port: u16, strategy: LaunchStrategy },
    /// Starting: a poll of the health endpoint on `port` is in flight.
    Polling { port: u16 },
    /// Starting: the probe sleeps between two polls.
    Sleeping { port: u16 },
    /// The backend has passed its readiness probe and serves on the port.
    Ready,
    /// A stop is under way.
    Stopping,
    /// The last start failed.
    Failed,
}

/// The supervisor's state as contracts see it.
#[derive(Clone, Copy, Debug, PartialEq, Eq, Structural)]
pub struct SupervisorState {
    /// The port on which the backend serves; 0 while it does not.
    pub port: u16,
    /// The running child, where there is one.
    pub child: Option<ChildKind>,
    pub phase: Phase,
}

/// What the caller reports during a start.
#[derive(Debug)]
pub enum StartEvent {
    /// The bind of the candidate succeeded (and was released), or failed.
    BindResult(bool),
    /// The child was spawned; the caller holds its handle.
    Spawned,
    /// The bundled executable could not be resolved.
    ResourceMissing(String),
    /// The spawn failed.
    SpawnFailed(String),
    /// The poll of the health endpoint came back.
    Health(HealthReply),
    /// The sleep is over, `elapsed_ms` after the probe began.
    Woke { elapsed_ms: u64 },
}

/// What the caller is to do next during a start.
#[derive(Debug, PartialEq, Eq)]
pub enum StartAction {
    /// Try to bind a listening socket on the loopback address of `port`,
    /// release it at once, and report whether the bind succeeded.
    Bind { port: u16 },
    /// Spawn the backend by `strategy` for `port`, start the probe's clock,
    /// and report the outcome.
    Spawn { strategy: LaunchStrategy, port: u16 },
    /// Poll the health endpoint on `port`, allowing the poll `timeout_ms`
    /// milliseconds, and report the reply.
    Poll { port: u16, timeout_ms: u64 },
    /// Sleep for `ms` milliseconds and report the time.
    Sleep { ms: u64 },
    /// The start is complete: the backend is ready.
    Succeeded,
    /// The start has failed.
    Failed(StartError),
}

/// The request that asks a serving backend to exit by itself.
#[derive(Clone, Copy, Debug, PartialEq, Eq, Structural)]
pub struct GracefulShutdown {
    /// The port of the backend's shutdown endpoint.
    pub port: u16,
    /// The time allowed to the request; its failure is ignored.
    pub timeout_ms: u64,
    /// The time to wait after the request, whatever came of it.
    pub grace_ms: u64,
}

/// The state of a supervisor that has never started anything.
pub open spec fn idle_state() -> SupervisorState {
    SupervisorState { port: 0, child: None, phase: Phase::Idle }
}

/// The phases of a start under way.
pub open spec fn starting(phase: Phase) -> bool {
    phase is Scanning || phase is Launching || phase is Polling || phase is Sleeping
}

/// What holds of every state a supervisor can be in.
///
/// The port is nonzero only while a child is there that has passed its
/// readiness probe; it then lies in the allocator's range. A start under way
/// works on a port of that range, and holds a child exactly from the spawn
/// on.
pub open spec fn consistent(s: SupervisorState) -> bool {
    &&& s.port != 0 ==> in_port_range(s.port as int) && s.child is Some && (s.phase is Ready
        || s.phase is Stopping)
    &&& s.phase is Ready ==> s.port != 0
    &&& s.phase is Idle ==> s.child is None
    &&& match s.phase {
        Phase::Scanning { candidate, .. } => in_port_range(candidate as int) && s.child is None,
        Phase::Launching { port, .. } => in_port_range(port as int) && s.child is None,
        Phase::Polling { port } => in_port_range(port as int) && s.child is Some,
        Phase::Sleeping { port } => in_port_range(port as int) && s.child is Some,
        _ => true,
    }
}

/// The kind of child that a strategy produces.
pub open spec fn child_of(strategy: LaunchStrategy) -> ChildKind {
    match strategy {
        LaunchStrategy::Development => ChildKind::Process,
        LaunchStrategy::Production => ChildKind::Sidecar,
    }
}

/// The means by which a kind of child is terminated.
pub open spec fn termination_of(kind: ChildKind) -> Termination {
    match kind {
        ChildKind::Process => Termination::KillAndWait,
        ChildKind::Sidecar => Termination::SignalViaChannel,
    }
}

/// A start may begin: nothing is under way and no child is held.
pub open spec fn startable(s: SupervisorState) -> bool {
    (s.phase is Idle || s.phase is Failed) && s.child is None
}

/// The state and the first action of a start by `strategy`.
pub open spec fn start_begun(s: SupervisorState, strategy: LaunchStrategy) -> (
    SupervisorState,
    StartAction,
) {
    (
        SupervisorState {
            port: s.port,
            child: s.child,
            phase: Phase::Scanning { candidate: FIRST_PORT, strategy },
        },
        StartAction::Bind { port: FIRST_PORT },
    )
}

/// The state after a failure of the start, with everything else kept.
pub open spec fn failed(s: SupervisorState) -> SupervisorState {
    SupervisorState { port: s.port, child: s.child, phase: Phase::Failed }
}

/// The state in `phase`, with everything else kept.
pub open spec fn moved(s: SupervisorState, phase: Phase) -> SupervisorState {
    SupervisorState { port: s.port, child: s.child, phase }
}

/// The state and the action that follow a poll or a sleep of the probe on
/// `port`, by the probe's own step.
pub open spec fn probe_continues(s: SupervisorState, port: u16, step: ProbeStep) -> (
    SupervisorState,
    StartAction,
) {
    match step {
        ProbeStep::Poll => (
            moved(s, Phase::Polling { port }),
            StartAction::Poll { port, timeout_ms: POLL_TIMEOUT_MS },
        ),
        ProbeStep::Sleep => (
            moved(s, Phase::Sleeping { port }),
            StartAction::Sleep { ms: POLL_INTERVAL_MS },
        ),
        ProbeStep::Ready => (
            SupervisorState { port, child: s.child, phase: Phase::Ready },
            StartAction::Succeeded,
        ),
        ProbeStep::TimedOut => (
            failed(s),
            StartAction::Failed(
                StartError::ReadinessTimeout { seconds: READINESS_DEADLINE_MS / 1000 },
            ),
        ),
    }
}

/// The transition of a start: the state and the action that follow `event` in
/// state `s`, or none where `s` does not await that event.
///
/// - While scanning, a bind that succeeded fixes the port and has the child
///   spawned; one that failed moves on to the next candidate, or fails the
///   start when there is none.
/// - While launching, a spawn that succeeded stores the child and begins the
///   probe; a missing executable or a failed spawn fails the start.
/// - While polling, a reply that shows a ready backend publishes the port and
///   completes the start; any other reply leads to a sleep.
/// - While sleeping, waking leads to another poll before the deadline and
///   fails the start from the deadline on. The child stays stored: the next
///   stop disposes of it.
pub open spec fn start_step(s: SupervisorState, event: StartEvent) -> Option<
    (SupervisorState, StartAction),
> {
    match (s.phase, event) {
        (Phase::Scanning { candidate, strategy }, StartEvent::BindResult(bound)) => Some(
            match port_step(candidate, bound) {
                PortStep::Allocated(port) => (
                    moved(s, Phase::Launching { port, strategy }),
                    StartAction::Spawn { strategy, port },
                ),
                PortStep::Try(next) => (
                    moved(s, Phase::Scanning { candidate: next, strategy }),
                    StartAction::Bind { port: next },
                ),
                PortStep::Exhausted => (
                    failed(s),
                    StartAction::Failed(StartError::NoPortAvailable),
                ),
            },
        ),
        (Phase::Launching { port, strategy }, StartEvent::Spawned) => Some(
            probe_continues(
                SupervisorState { port: s.port, child: Some(child_of(strategy)), phase: s.phase },
                port,
                wake_step(0, READINESS_DEADLINE_MS as int),
            ),
        ),
        (Phase::Launching { .. }, StartEvent::ResourceMissing(detail)) => Some(
            (failed(s), StartAction::Failed(StartError::ResourceNotFound(detail))),
        ),
        (Phase::Launching { strategy, .. }, StartEvent::SpawnFailed(reason)) => Some(
            (failed(s), StartAction::Failed(StartError::SpawnFailed { strategy, reason })),
        ),
        (Phase::Polling { port }, StartEvent::Health(reply)) => Some(
            probe_continues(s, port, reply_step(shows_ready(reply))),
        ),
        (Phase::Sleeping { port }, StartEvent::Woke { elapsed_ms }) => Some(
            probe_continues(s, port, wake_step(elapsed_ms as int, READINESS_DEADLINE_MS as int)),
        ),
        _ => None,
    }
}

/// The state after the first half of a stop, and the graceful request to make:
/// one is made exactly when a port is stored.
pub open spec fn stop_begun(s: SupervisorState) -> (SupervisorState, Option<GracefulShutdown>) {
    (
        moved(s, Phase::Stopping),
        if s.port != 0 {
            Some(
                GracefulShutdown {
                    port: s.port,
                    timeout_ms: SHUTDOWN_TIMEOUT_MS,
                    grace_ms: SHUTDOWN_GRACE_MS,
                },
            )
        } else {
            None
        },
    )
}

/// The state after the second half of a stop, and the child to terminate.
pub open spec fn stop_finished(s: SupervisorState) -> (SupervisorState, Option<ChildKind>) {
    (idle_state(), s.child)
}

/// The state after a whole stop.
pub open spec fn stopped(s: SupervisorState) -> SupervisorState {
    stop_finished(stop_begun(s).0).0
}

/// The text of the backend's base URL on `port`.
pub open spec fn backend_url_text(port: u16) -> Seq<char> {
    "http://127.0.0.1:"@ + decimal(port as nat)
}

/// The text of the shutdown endpoint's URL on `port`.
pub open spec fn shutdown_url_text(port: u16) -> Seq<char> {
    backend_url_text(port) + "/shutdown"@
}

/// The supervisor: the shared state, reachable only through the decisions
/// below.
pub struct BackendSupervisor {
    state: SupervisorState,
}

impl View for BackendSupervisor {
    type V = SupervisorState;

    closed spec fn view(&self) -> SupervisorState {
        self.state
    }
}

impl BackendSupervisor {
    #[verifier::type_invariant]
    spec fn well_formed(self) -> bool {
        consistent(self.state)
    }

    /// A supervisor with nothing running.
    pub fn new() -> (supervisor: BackendSupervisor)
        ensures
            supervisor@ == idle_state(),
    {
        BackendSupervisor { state: SupervisorState { port: 0, child: None, phase: Phase::Idle } }
    }

    /// The stored port: 0 unless a backend is serving.
    pub fn port(&self) -> (port: u16)
        ensures
            port == self@.port,
            consistent(self@),
    {
        proof {
            use_type_invariant(self);
        }
        self.state.port
    }

    /// The kind of the stored child.
    pub fn child(&self) -> (child: Option<ChildKind>)
        ensures
            child == self@.child,
            consistent(self@),
    {
        proof {
            use_type_invariant(self);
        }
        self.state.child
    }

    /// The phase the backend is in.
    pub fn phase(&self) -> (phase: Phase)
        ensures
            phase == self@.phase,
            consistent(self@),
    {
        proof {
            use_type_invariant(self);
        }
        self.state.phase
    }

    /// Begins a start, by the strategy of the build.
    ///
    /// A start begins only from rest: with a start or a stop under way, or
    /// with a backend running or left over, the call changes nothing and
    /// returns none. After a failed start that left its child stored, a stop
    /// comes first.
    pub fn begin_start(&mut self, strategy: LaunchStrategy) -> (action: Option<StartAction>)
        ensures
            consistent(old(self)@),
            consistent(final(self)@),
            startable(old(self)@) ==> final(self)@ == start_begun(old(self)@, strategy).0
                && action == Some(start_begun(old(self)@, strategy).1),
            !startable(old(self)@) ==> final(self)@ == old(self)@ && action is None,
    {
        proof {
            use_type_invariant(&*self);
        }
        let can_start = match self.state.phase {
            Phase::Idle => self.state.child.is_none(),
            Phase::Failed => self.state.child.is_none(),
            _ => false,
        };
        if can_start {
            self.state.phase = Phase::Scanning { candidate: FIRST_PORT, strategy };
            Some(StartAction::Bind { port: FIRST_PORT })
        } else {
            None
        }
    }

    /// Takes the caller's report during a start and decides the next action.
    ///
    /// The decision is [`start_step`]. An event that the supervisor does not
    /// await (one that answers no action of the current phase, as after a
    /// stop has cut the start short) changes nothing and returns none.
    pub fn on_start_event(&mut self, event: StartEvent) -> (action: Option<StartAction>)
        ensures
            consistent(old(self)@),
            consistent(final(self)@),
            match start_step(old(self)@, event) {
                Some((state, next)) => final(self)@ == state && action == Some(next),
                None => final(self)@ == old(self)@ && action is None,
            },
    {
        proof {
            use_type_invariant(&*self);
            lemma_start_step_consistent(self.state, event);
        }
        let phase = self.state.phase;
        match (phase, event) {
            (Phase::Scanning { candidate, strategy }, StartEvent::BindResult(bound)) => {
                match on_bind_result(candidate, bound) {
                    PortStep::Allocated(port) => {
                        self.state.phase = Phase::Launching { port, strategy };
                        Some(StartAction::Spawn { strategy, port })
                    },
                    PortStep::Try(next) => {
                        self.state.phase = Phase::Scanning { candidate: next, strategy };
                        Some(StartAction::Bind { port: next })
                    },
                    PortStep::Exhausted => {
                        self.state.phase = Phase::Failed;
                        Some(StartAction::Failed(StartError::NoPortAvailable))
                    },
                }
            },
            (Phase::Launching { port, strategy }, StartEvent::Spawned) => {
                let spawned = SupervisorState {
                    port: self.state.port,
                    child: Some(child_kind(strategy)),
                    phase,
                };
                let (state, action) = continue_probe(
                    spawned,
                    port,
                    on_wake(0, READINESS_DEADLINE_MS),
                );
                self.state = state;
                Some(action)
            },
            (Phase::Launching { .. }, StartEvent::ResourceMissing(detail)) => {
                self.state.phase = Phase::Failed;
                Some(StartAction::Failed(StartError::ResourceNotFound(detail)))
            },
            (Phase::Launching { strategy, .. }, StartEvent::SpawnFailed(reason)) => {
                self.state.phase = Phase::Failed;
                Some(StartAction::Failed(StartError::SpawnFailed { strategy, reason }))
            },
            (Phase::Polling { port }, StartEvent::Health(reply)) => {
                let (state, action) = continue_probe(self.current(), port, on_reply(&reply));
                self.state = state;
                Some(action)
            },
            (Phase::Sleeping { port }, StartEvent::Woke { elapsed_ms }) => {
                let (state, action) = continue_probe(
                    self.current(),
                    port,
                    on_wake(elapsed_ms, READINESS_DEADLINE_MS),
                );
                self.state = state;
                Some(action)
            },
            _ => None,
        }
    }

    fn current(&self) -> (state: SupervisorState)
        ensures
            state == self.state,
    {
        SupervisorState {
            port: self.state.port,
            child: self.state.child,
            phase: self.state.phase,
        }
    }

    /// The first half of a stop: reads the port and decides whether the
    /// backend is asked to exit by itself.
    ///
    /// With a port stored, the caller posts to the shutdown endpoint within
    /// the request's time, ignores what comes of it, and waits the grace
    /// period. With none stored there is nothing to ask and nothing to wait
    /// for. Either way [`BackendSupervisor::finish_stop`] follows. The call
    /// cuts short a start that is under way.
    pub fn begin_stop(&mut self) -> (graceful: Option<GracefulShutdown>)
        ensures
            consistent(old(self)@),
            consistent(final(self)@),
            final(self)@ == stop_begun(old(self)@).0,
            graceful == stop_begun(old(self)@).1,
    {
        proof {
            use_type_invariant(&*self);
        }
        self.state.phase = Phase::Stopping;
        if self.state.port != 0 {
            Some(
                GracefulShutdown {
                    port: self.state.port,
                    timeout_ms: SHUTDOWN_TIMEOUT_MS,
                    grace_ms: SHUTDOWN_GRACE_MS,
                },
            )
        } else {
            None
        }
    }

    /// The second half of a stop: takes the stored child out, for the caller
    /// to terminate by the means of its kind, and resets the port to 0.
    ///
    /// The caller ignores a failure of the termination: a stop never fails.
    pub fn finish_stop(&mut self) -> (child: Option<ChildKind>)
        ensures
            consistent(old(self)@),
            final(self)@ == stop_finished(old(self)@).0,
            child == stop_finished(old(self)@).1,
    {
        proof {
            use_type_invariant(&*self);
        }
        let child = self.state.child;
        self.state = SupervisorState { port: 0, child: None, phase: Phase::Idle };
        child
    }
}

/// Carries a start on by one step of the probe on `port`.
fn continue_probe(s: SupervisorState, port: u16, step: ProbeStep) -> (next: (
    SupervisorState,
    StartAction,
))
    ensures
        next == probe_continues(s, port, step),
{
    match step {
        ProbeStep::Poll => (
            SupervisorState { port: s.port, child: s.child, phase: Phase::Polling { port } },
            StartAction::Poll { port, timeout_ms: POLL_TIMEOUT_MS },
        ),
        ProbeStep::Sleep => (
            SupervisorState { port: s.port, child: s.child, phase: Phase::Sleeping { port } },
            StartAction::Sleep { ms: POLL_INTERVAL_MS },
        ),
        ProbeStep::Ready => (
            SupervisorState { port, child: s.child, phase: Phase::Ready },
            StartAction::Succeeded,
        ),
        ProbeStep::TimedOut => (
            SupervisorState { port: s.port, child: s.child, phase: Phase::Failed },
            StartAction::Failed(
                StartError::ReadinessTimeout { seconds: READINESS_DEADLINE_MS / 1000 },
            ),
        ),
    }
}

/// The child kind that `strategy` produces.
pub fn child_kind(strategy: LaunchStrategy) -> (kind: ChildKind)
    ensures
        kind == child_of(strategy),
{
    match strategy {
        LaunchStrategy::Development => ChildKind::Process,
        LaunchStrategy::Production => ChildKind::Sidecar,
    }
}

/// The means by which a child of `kind` is terminated: a direct process is
/// killed and waited for, a sidecar is sent a kill through its channel.
pub fn termination(kind: ChildKind) -> (means: Termination)
    ensures
        means == termination_of(kind),
{
    match kind {
        ChildKind::Process => Termination::KillAndWait,
        ChildKind::Sidecar => Termination::SignalViaChannel,
    }
}

/// The base URL of the backend: the loopback address with the stored port.
/// With no backend serving the port is 0, and requests to the URL fail.
pub fn get_backend_url(supervisor: &BackendSupervisor) -> (url: String)
    ensures
        url@ == backend_url_text(supervisor@.port),
{
    let mut url = String::from_str("http://127.0.0.1:");
    push_decimal(&mut url, supervisor.port() as u64);
    url
}

/// The URL of the endpoint that asks the backend on `port` to shut down.
pub fn shutdown_url(port: u16) -> (url: String)
    ensures
        url@ == shutdown_url_text(port),
{
    let mut url = String::from_str("http://127.0.0.1:");
    push_decimal(&mut url, port as u64);
    url.append("/shutdown");
    url
}

/// Every step of a start keeps the state consistent.
pub proof fn lemma_start_step_consistent(s: SupervisorState, event: StartEvent)
    requires
        consistent(s),
    ensures
        match start_step(s, event) {
            Some((next, _)) => consistent(next),
            None => true,
        },
{
}

/// A start is reported complete only in answer to a poll of the health
/// endpoint that showed a ready backend. The port published with it is the
/// one that was polled: it is nonzero, lies in the allocator's range, and the
/// child is stored.
pub proof fn lemma_start_succeeds_only_when_healthy(s: SupervisorState, event: StartEvent)
    requires
        consistent(s),
        start_step(s, event) matches Some((_, action)) && action is Succeeded,
    ensures
        s.phase is Polling,
        event matches StartEvent::Health(reply) && shows_ready(reply),
        start_step(s, event) matches Some((next, _)) && next.phase is Ready && next.port != 0
            && in_port_range(next.port as int) && next.child is Some && s.phase
            == (Phase::Polling { port: next.port }),
{
}

/// A step of a start leads from a starting phase to a starting phase, to
/// ready or to failed, and nowhere else. It publishes a port only on
/// completion, and it stores a child only at the spawn. A start that fails
/// for want of readiness leaves its child stored.
pub proof fn lemma_start_step_edges(s: SupervisorState, event: StartEvent)
    requires
        consistent(s),
        start_step(s, event) is Some,
    ensures
        starting(s.phase),
        start_step(s, event) matches Some((next, action)) && {
            &&& starting(next.phase) || next.phase is Ready || next.phase is Failed
            &&& next.phase is Ready <==> action is Succeeded
            &&& next.phase is Failed <==> action is Failed
            &&& !(next.phase is Ready) ==> next.port == 0
            &&& next.child != s.child ==> s.phase is Launching && event is Spawned
            &&& action matches StartAction::Failed(StartError::ReadinessTimeout { .. })
                ==> next.child is Some
        },
{
}

/// A stop always ends at rest: port 0, no child, phase idle, whatever the
/// state it began in (one that never started included). A second stop right
/// after it meets nothing to do: it asks no backend to shut down, terminates
/// no child, and ends at rest again.
pub proof fn lemma_stop_is_idempotent(s: SupervisorState)
    ensures
        stopped(s) == idle_state(),
        stopped(s).port == 0,
        stopped(idle_state()) == idle_state(),
        stopped(stopped(s)) == stopped(s),
        stop_begun(stopped(s)).1 is None,
        stop_finished(stop_begun(stopped(s)).0).1 is None,
{
}

/// A stop asks the backend to shut down exactly when a port is stored, and
/// hands out for termination exactly the child that was stored.
pub proof fn lemma_stop_disposes(s: SupervisorState)
    ensures
        stop_begun(s).1 is Some <==> s.port != 0,
        stop_begun(s).1 matches Some(graceful) ==> graceful.port == s.port,
        stop_finished(stop_begun(s).0).1 == s.child,
{
}

} // verus!
