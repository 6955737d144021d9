//! The process lifecycle manager: the single authority over "is a server
//! instance running, and on which port".
//!
//! The manager owns at most one child handle and the port that child
//! announced. Spawning, draining output, awaiting the one-shot announcement
//! and probing the health endpoint are jobs of the surrounding runtime; the
//! decisions between them all live here. [`SidecarState::start`] consumes one
//! event of the start orchestration and answers with the next action; the
//! runtime performs the action and reports its outcome as the next event. All
//! calls go through one exclusive-access guard around the state, so `start`,
//! `stop` and `get_port` never interleave their mutations.
//!
//! A deliberate policy, kept from the design: a failure after spawning —
//! discovery timeout, closed channel, failed health check — completes that
//! `start` with an error but leaves the child handle held and the process
//! running; only an explicit `stop` clears the state.

use vstd::prelude::*;

verus! {

/// Milliseconds `start` waits for the port announcement.
pub const PORT_PARSE_TIMEOUT_MS: u64 = 10000;

/// Why `start` or `stop` failed.
#[derive(Clone, Copy, Debug, PartialEq, Eq)]
pub enum SidecarError {
    /// The server bundle was not found on disk.
    ResourceMissing,
    /// The operating system failed to spawn the child process.
    SpawnFailed,
    /// A child is already held but no port was ever recorded.
    RunningPortUnknown,
    /// No announcement arrived within the discovery timeout.
    PortDiscoveryTimeout,
    /// The announcement channel closed before a port was delivered.
    PortDiscoveryFailed,
    /// The server never answered the readiness probe within its budget.
    HealthCheckFailed,
    /// The termination signal could not be delivered.
    StopFailed,
}

/// How the bounded wait on the one-shot port announcement ended.
#[derive(Clone, Copy, Debug, PartialEq, Eq)]
pub enum PortWaitOutcome {
    /// The announcement arrived, carrying this port.
    Discovered(u16),
    /// The wait timed out.
    TimedOut,
    /// The channel closed with nothing delivered.
    Closed,
}

/// One outcome of the `start` orchestration, reported by the runtime.
#[derive(Clone, Copy, Debug, PartialEq, Eq)]
pub enum StartEvent {
    /// A caller invoked `start`.
    Invoke,
    /// The server bundle was resolved on disk: whether it exists.
    ResourceChecked(bool),
    /// Spawning finished: the new child's handle id, or nothing on failure.
    Spawned(Option<u64>),
    /// The bounded wait on the port announcement ended.
    PortWaited(PortWaitOutcome),
    /// Health polling ended: whether the server became ready.
    HealthChecked(bool),
}

/// What the runtime must do next in the `start` orchestration.
#[derive(Clone, Copy, Debug, PartialEq, Eq)]
pub enum StartAction {
    /// Resolve the server bundle on disk and report whether it exists.
    CheckResource,
    /// Spawn the child process and report the result.
    SpawnChild,
    /// Start the output-draining task, then await the one-shot announcement
    /// for at most this many milliseconds.
    AwaitPort(u64),
    /// Poll the health endpoint on this port and report the verdict.
    ProbeHealth(u16),
    /// `start` is finished, with this result for its caller.
    Complete(Result<u16, SidecarError>),
}

/// What `stop` asks of the runtime.
#[derive(Clone, Copy, Debug, PartialEq, Eq)]
pub enum StopAction {
    /// Send the termination signal to the child with this handle id.
    Signal(u64),
    /// No child is held: nothing to do.
    NoOp,
}

/// The `start` transition: from the held child, the recorded port and one
/// event to the state after it and the next action. Child handles are the
/// numeric ids the runtime assigns them.
pub open spec fn spec_start(
    child: Option<u64>,
    port: Option<u16>,
    ev: StartEvent,
) -> ((Option<u64>, Option<u16>), StartAction) {
    match ev {
        StartEvent::Invoke => match (child, port) {
            // Already running: answer with the known port, spawn nothing.
            (Some(_), Some(p)) => ((child, port), StartAction::Complete(Ok(p))),
            (Some(_), None) => (
                (child, port),
                StartAction::Complete(Err(SidecarError::RunningPortUnknown)),
            ),
            (None, _) => ((child, port), StartAction::CheckResource),
        },
        StartEvent::ResourceChecked(found) => if found {
            ((child, port), StartAction::SpawnChild)
        } else {
            ((child, port), StartAction::Complete(Err(SidecarError::ResourceMissing)))
        },
        StartEvent::Spawned(outcome) => match outcome {
            // The handle is stored before anything else happens, so a
            // concurrent `start` already sees the running child.
            Some(id) => ((Some(id), port), StartAction::AwaitPort(PORT_PARSE_TIMEOUT_MS)),
            None => ((child, port), StartAction::Complete(Err(SidecarError::SpawnFailed))),
        },
        StartEvent::PortWaited(outcome) => match outcome {
            PortWaitOutcome::Discovered(p) => ((child, Some(p)), StartAction::ProbeHealth(p)),
            PortWaitOutcome::TimedOut => (
                (child, port),
                StartAction::Complete(Err(SidecarError::PortDiscoveryTimeout)),
            ),
            PortWaitOutcome::Closed => (
                (child, port),
                StartAction::Complete(Err(SidecarError::PortDiscoveryFailed)),
            ),
        },
        StartEvent::HealthChecked(ready) => if ready {
            match port {
                Some(p) => ((child, port), StartAction::Complete(Ok(p))),
                None => (
                    (child, port),
                    StartAction::Complete(Err(SidecarError::RunningPortUnknown)),
                ),
            }
        } else {
            // The child stays held and the port stays recorded: best-effort
            // continuation, cleaned up only by an explicit `stop`.
            ((child, port), StartAction::Complete(Err(SidecarError::HealthCheckFailed)))
        },
    }
}

/// The `stop` transition: signal the held child, if any, and clear both
/// fields; with no child held, a no-op that changes nothing.
pub open spec fn spec_stop(
    child: Option<u64>,
    port: Option<u16>,
) -> ((Option<u64>, Option<u16>), StopAction) {
    match child {
        Some(id) => ((None, None), StopAction::Signal(id)),
        None => ((child, port), StopAction::NoOp),
    }
}

/// The supervisor's shared state: ownership of at most one live child handle
/// (modeled by the id the runtime assigned it) and the port that child
/// announced. The surrounding runtime serializes access with one
/// exclusive-access guard.
pub struct SidecarState {
    child: Option<u64>,
    port: Option<u16>,
}

impl SidecarState {
    /// The held child handle id; `None` when no server is running.
    pub closed spec fn spec_child(self) -> Option<u64> {
        self.child
    }

    /// The discovered port; `None` until a server announced one.
    pub closed spec fn spec_port(self) -> Option<u16> {
        self.port
    }

    /// Invariant: a port is only ever recorded while a child is held.
    pub open spec fn wf(self) -> bool {
        self.spec_port() is Some ==> self.spec_child() is Some
    }

    /// A supervisor with no child and no port.
    pub fn new() -> (r: Self)
        ensures
            r.spec_child() is None,
            r.spec_port() is None,
    {
        SidecarState { child: None, port: None }
    }

    /// Get the port the server is running on (if started).
    pub fn get_port(&self) -> (r: Option<u16>)
        ensures
            r == self.spec_port(),
    {
        self.port
    }

    /// Whether a child handle is currently held.
    pub fn is_running(&self) -> (r: bool)
        ensures
            r == (self.spec_child() is Some),
    {
        self.child.is_some()
    }

    /// Consumes one event of the `start` orchestration and answers with the
    /// next action, exactly as [`spec_start`] says. The `requires` states the
    /// order the orchestration drives the events in: resolving and spawning
    /// happen only while no child is held, the port announcement is awaited
    /// only for a held child, and health is checked only once a port is
    /// recorded.
    pub fn start(&mut self, ev: StartEvent) -> (r: StartAction)
        requires
            match ev {
                StartEvent::Invoke => true,
                StartEvent::ResourceChecked(_) => old(self).spec_child() is None,
                StartEvent::Spawned(_) => old(self).spec_child() is None,
                StartEvent::PortWaited(_) => old(self).spec_child() is Some,
                StartEvent::HealthChecked(_) => old(self).spec_child() is Some && old(
                    self,
                ).spec_port() is Some,
            },
        ensures
            ((final(self).spec_child(), final(self).spec_port()), r) == spec_start(
                old(self).spec_child(),
                old(self).spec_port(),
                ev,
            ),
            old(self).wf() ==> final(self).wf(),
    {
        match ev {
            StartEvent::Invoke => match (self.child, self.port) {
                (Some(_), Some(p)) => StartAction::Complete(Ok(p)),
                (Some(_), None) => StartAction::Complete(Err(SidecarError::RunningPortUnknown)),
                (None, _) => StartAction::CheckResource,
            },
            StartEvent::ResourceChecked(found) => if found {
                StartAction::SpawnChild
            } else {
                StartAction::Complete(Err(SidecarError::ResourceMissing))
            },
            StartEvent::Spawned(outcome) => match outcome {
                Some(id) => {
                    self.child = Some(id);
                    StartAction::AwaitPort(PORT_PARSE_TIMEOUT_MS)
                },
                None => StartAction::Complete(Err(SidecarError::SpawnFailed)),
            },
            StartEvent::PortWaited(outcome) => match outcome {
                PortWaitOutcome::Discovered(p) => {
                    self.port = Some(p);
                    StartAction::ProbeHealth(p)
                },
                PortWaitOutcome::TimedOut => StartAction::Complete(
                    Err(SidecarError::PortDiscoveryTimeout),
                ),
                PortWaitOutcome::Closed => StartAction::Complete(
                    Err(SidecarError::PortDiscoveryFailed),
                ),
            },
            StartEvent::HealthChecked(ready) => if ready {
                match self.port {
                    Some(p) => StartAction::Complete(Ok(p)),
                    None => StartAction::Complete(Err(SidecarError::RunningPortUnknown)),
                }
            } else {
                StartAction::Complete(Err(SidecarError::HealthCheckFailed))
            },
        }
    }

    /// Stop the sidecar: take the held handle, ask the runtime to signal it
    /// and clear both fields; idempotent when no child is held. The
    /// supervisor does not wait for the process to exit.
    pub fn stop(&mut self) -> (r: StopAction)
        ensures
            ((final(self).spec_child(), final(self).spec_port()), r) == spec_stop(
                old(self).spec_child(),
                old(self).spec_port(),
            ),
            old(self).wf() ==> final(self).wf(),
    {
        match self.child {
            Some(id) => {
                self.child = None;
                self.port = None;
                StopAction::Signal(id)
            },
            None => StopAction::NoOp,
        }
    }
}

impl Default for SidecarState {
    fn default() -> (r: Self)
        ensures
            r.spec_child() is None,
            r.spec_port() is None,
    {
        Self::new()
    }
}

/// The result `stop` reports once the runtime has tried to deliver the
/// termination signal: a failure to signal is `StopFailed`. The state is
/// cleared either way.
pub fn stop_outcome(signalled: bool) -> (r: Result<(), SidecarError>)
    ensures
        r is Ok <==> signalled,
        !signalled ==> r == Result::<(), SidecarError>::Err(SidecarError::StopFailed),
{
    if signalled {
        Ok(())
    } else {
        Err(SidecarError::StopFailed)
    }
}

/// Law: one child per running server. A full, successful `start` from the
/// idle state records the spawned child and the announced port, and a second
/// `start` invoked afterwards — as a concurrent caller serialized behind the
/// same guard would — changes nothing, spawns nothing, and observes the very
/// same port.
pub proof fn lemma_second_start_observes_first(c: u64, p: u16)
    ensures
        ({
            let (s1, a1) = spec_start(None, None, StartEvent::Invoke);
            let (s2, a2) = spec_start(s1.0, s1.1, StartEvent::ResourceChecked(true));
            let (s3, a3) = spec_start(s2.0, s2.1, StartEvent::Spawned(Some(c)));
            let (s4, a4) = spec_start(s3.0, s3.1, StartEvent::PortWaited(
                PortWaitOutcome::Discovered(p),
            ));
            let (s5, a5) = spec_start(s4.0, s4.1, StartEvent::HealthChecked(true));
            let (s6, a6) = spec_start(s5.0, s5.1, StartEvent::Invoke);
            &&& a1 == StartAction::CheckResource
            &&& a2 == StartAction::SpawnChild
            &&& a5 == StartAction::Complete(Result::<u16, SidecarError>::Ok(p))
            &&& s5 == (Some(c), Some(p))
            &&& s6 == s5
            &&& a6 == a5
        }),
{
}

/// Law: `stop` with no child held succeeds as a no-op and leaves the state
/// exactly as it was — for a supervisor that never started, `None` and
/// `None`.
pub proof fn lemma_stop_without_child_is_noop(port: Option<u16>)
    ensures
        spec_stop(None, port) == ((None::<u64>, port), StopAction::NoOp),
{
}

/// Law: a discovery timeout fails that `start` with the timeout error and
/// records no port, so `get_port` still answers `None` after a first `start`
/// that never saw an announcement.
pub proof fn lemma_discovery_timeout_records_no_port(c: u64)
    ensures
        spec_start(Some(c), None, StartEvent::PortWaited(PortWaitOutcome::TimedOut)) == (
            (Some(c), None::<u16>),
            StartAction::Complete(Result::<u16, SidecarError>::Err(
                SidecarError::PortDiscoveryTimeout,
            )),
        ),
{
}

/// Law: best-effort continuation. No late failure of `start` — a discovery
/// timeout, a closed announcement channel, or a failed health check — clears
/// the held child handle; only `stop` does.
pub proof fn lemma_late_failure_leaves_child_running(c: u64, port: Option<u16>)
    ensures
        spec_start(Some(c), port, StartEvent::PortWaited(PortWaitOutcome::TimedOut)).0.0 == Some(
            c,
        ),
        spec_start(Some(c), port, StartEvent::PortWaited(PortWaitOutcome::Closed)).0.0 == Some(c),
        spec_start(Some(c), port, StartEvent::HealthChecked(false)).0 == (Some(c), port),
{
}

/// Law: after a successful `start` and then a `stop`, the next `start` does
/// not reuse the old handle: the stopped handle is signalled and dropped, the
/// orchestration reaches the spawn step again, and the newly spawned child
/// and newly announced port — both free to differ from the old ones — are
/// what the state records.
pub proof fn lemma_restart_spawns_new_child(c1: u64, p1: u16, c2: u64, p2: u16)
    ensures
        ({
            let (s1, a1) = spec_stop(Some(c1), Some(p1));
            let (s2, a2) = spec_start(s1.0, s1.1, StartEvent::Invoke);
            let (s3, a3) = spec_start(s2.0, s2.1, StartEvent::ResourceChecked(true));
            let (s4, a4) = spec_start(s3.0, s3.1, StartEvent::Spawned(Some(c2)));
            let (s5, a5) = spec_start(s4.0, s4.1, StartEvent::PortWaited(
                PortWaitOutcome::Discovered(p2),
            ));
            let (s6, a6) = spec_start(s5.0, s5.1, StartEvent::HealthChecked(true));
            &&& a1 == StopAction::Signal(c1)
            &&& s1 == (None::<u64>, None::<u16>)
            &&& a2 == StartAction::CheckResource
            &&& a3 == StartAction::SpawnChild
            &&& s6 == (Some(c2), Some(p2))
            &&& a6 == StartAction::Complete(Result::<u16, SidecarError>::Ok(p2))
        }),
{
}

} // verus!
