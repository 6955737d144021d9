use sidecar_supervisor::stop_outcome;
use sidecar_supervisor::PortWaitOutcome;
use sidecar_supervisor::SidecarError;
use sidecar_supervisor::SidecarState;
use sidecar_supervisor::StartAction;
use sidecar_supervisor::StartEvent;
use sidecar_supervisor::StopAction;
use sidecar_supervisor::PORT_PARSE_TIMEOUT_MS;

fn start_to_ready(state: &mut SidecarState, child: u64, port: u16) {
    assert_eq!(state.start(StartEvent::Invoke), StartAction::CheckResource);
    assert_eq!(state.start(StartEvent::ResourceChecked(true)), StartAction::SpawnChild);
    assert_eq!(
        state.start(StartEvent::Spawned(Some(child))),
        StartAction::AwaitPort(PORT_PARSE_TIMEOUT_MS)
    );
    assert_eq!(
        state.start(StartEvent::PortWaited(PortWaitOutcome::Discovered(port))),
        StartAction::ProbeHealth(port)
    );
    assert_eq!(state.start(StartEvent::HealthChecked(true)), StartAction::Complete(Ok(port)));
}

#[test]
fn start_happy_path_records_child_and_port() {
    let mut state = SidecarState::new();
    assert_eq!(state.get_port(), None);
    assert!(!state.is_running());
    assert_eq!(state.start(StartEvent::Invoke), StartAction::CheckResource);
    assert_eq!(state.start(StartEvent::ResourceChecked(true)), StartAction::SpawnChild);
    assert_eq!(
        state.start(StartEvent::Spawned(Some(7))),
        StartAction::AwaitPort(PORT_PARSE_TIMEOUT_MS)
    );
    assert!(state.is_running());
    // Running, but the announcement has not arrived yet.
    assert_eq!(state.get_port(), None);
    assert_eq!(
        state.start(StartEvent::PortWaited(PortWaitOutcome::Discovered(31822))),
        StartAction::ProbeHealth(31822)
    );
    assert_eq!(state.start(StartEvent::HealthChecked(true)), StartAction::Complete(Ok(31822)));
    assert_eq!(state.get_port(), Some(31822));
}

#[test]
fn second_start_returns_existing_port_without_spawning() {
    let mut state = SidecarState::new();
    start_to_ready(&mut state, 1, 31822);
    // A later caller — or a concurrent one, serialized by the state lock —
    // completes at once with the same port; no spawn step is reached.
    assert_eq!(state.start(StartEvent::Invoke), StartAction::Complete(Ok(31822)));
    assert_eq!(state.get_port(), Some(31822));
    assert!(state.is_running());
}

#[test]
fn start_while_running_without_port_reports_port_unknown() {
    let mut state = SidecarState::new();
    assert_eq!(state.start(StartEvent::Invoke), StartAction::CheckResource);
    assert_eq!(state.start(StartEvent::ResourceChecked(true)), StartAction::SpawnChild);
    assert_eq!(
        state.start(StartEvent::Spawned(Some(3))),
        StartAction::AwaitPort(PORT_PARSE_TIMEOUT_MS)
    );
    assert_eq!(
        state.start(StartEvent::Invoke),
        StartAction::Complete(Err(SidecarError::RunningPortUnknown))
    );
}

#[test]
fn missing_resource_fails_start() {
    let mut state = SidecarState::new();
    assert_eq!(state.start(StartEvent::Invoke), StartAction::CheckResource);
    assert_eq!(
        state.start(StartEvent::ResourceChecked(false)),
        StartAction::Complete(Err(SidecarError::ResourceMissing))
    );
    assert!(!state.is_running());
    assert_eq!(state.get_port(), None);
}

#[test]
fn failed_spawn_fails_start() {
    let mut state = SidecarState::new();
    assert_eq!(state.start(StartEvent::Invoke), StartAction::CheckResource);
    assert_eq!(state.start(StartEvent::ResourceChecked(true)), StartAction::SpawnChild);
    assert_eq!(
        state.start(StartEvent::Spawned(None)),
        StartAction::Complete(Err(SidecarError::SpawnFailed))
    );
    assert!(!state.is_running());
}

#[test]
fn discovery_timeout_fails_start_and_leaves_port_none() {
    let mut state = SidecarState::new();
    assert_eq!(state.start(StartEvent::Invoke), StartAction::CheckResource);
    assert_eq!(state.start(StartEvent::ResourceChecked(true)), StartAction::SpawnChild);
    assert_eq!(
        state.start(StartEvent::Spawned(Some(9))),
        StartAction::AwaitPort(PORT_PARSE_TIMEOUT_MS)
    );
    assert_eq!(
        state.start(StartEvent::PortWaited(PortWaitOutcome::TimedOut)),
        StartAction::Complete(Err(SidecarError::PortDiscoveryTimeout))
    );
    assert_eq!(state.get_port(), None);
    // The child is left running on purpose; only `stop` cleans it up.
    assert!(state.is_running());
}

#[test]
fn closed_channel_fails_start_with_discovery_failed() {
    let mut state = SidecarState::new();
    assert_eq!(state.start(StartEvent::Invoke), StartAction::CheckResource);
    assert_eq!(state.start(StartEvent::ResourceChecked(true)), StartAction::SpawnChild);
    assert_eq!(
        state.start(StartEvent::Spawned(Some(9))),
        StartAction::AwaitPort(PORT_PARSE_TIMEOUT_MS)
    );
    assert_eq!(
        state.start(StartEvent::PortWaited(PortWaitOutcome::Closed)),
        StartAction::Complete(Err(SidecarError::PortDiscoveryFailed))
    );
    assert_eq!(state.get_port(), None);
    assert!(state.is_running());
}

#[test]
fn failed_health_check_fails_start_but_keeps_state() {
    let mut state = SidecarState::new();
    assert_eq!(state.start(StartEvent::Invoke), StartAction::CheckResource);
    assert_eq!(state.start(StartEvent::ResourceChecked(true)), StartAction::SpawnChild);
    assert_eq!(
        state.start(StartEvent::Spawned(Some(2))),
        StartAction::AwaitPort(PORT_PARSE_TIMEOUT_MS)
    );
    assert_eq!(
        state.start(StartEvent::PortWaited(PortWaitOutcome::Discovered(8123))),
        StartAction::ProbeHealth(8123)
    );
    assert_eq!(
        state.start(StartEvent::HealthChecked(false)),
        StartAction::Complete(Err(SidecarError::HealthCheckFailed))
    );
    // The port was discovered before health checking, so it stays recorded.
    assert_eq!(state.get_port(), Some(8123));
    assert!(state.is_running());
}

#[test]
fn stop_never_started_is_a_noop() {
    let mut state = SidecarState::new();
    assert_eq!(state.stop(), StopAction::NoOp);
    assert_eq!(state.get_port(), None);
    assert!(!state.is_running());
    // Idempotent: stopping again is still a no-op.
    assert_eq!(state.stop(), StopAction::NoOp);
}

#[test]
fn stop_signals_the_held_child_and_clears_state() {
    let mut state = SidecarState::new();
    start_to_ready(&mut state, 42, 31822);
    assert_eq!(state.stop(), StopAction::Signal(42));
    assert_eq!(state.get_port(), None);
    assert!(!state.is_running());
}

#[test]
fn stop_outcome_maps_signal_failure() {
    assert_eq!(stop_outcome(true), Ok(()));
    assert_eq!(stop_outcome(false), Err(SidecarError::StopFailed));
}

#[test]
fn restart_after_stop_spawns_a_new_child() {
    let mut state = SidecarState::new();
    start_to_ready(&mut state, 1, 31822);
    assert_eq!(state.stop(), StopAction::Signal(1));
    // The next start goes through the whole orchestration again with a fresh
    // handle, and may discover a different port.
    start_to_ready(&mut state, 2, 41234);
    assert_eq!(state.get_port(), Some(41234));
    assert_eq!(state.stop(), StopAction::Signal(2));
}

#[test]
fn default_state_is_idle() {
    let state = SidecarState::default();
    assert_eq!(state.get_port(), None);
    assert!(!state.is_running());
}
