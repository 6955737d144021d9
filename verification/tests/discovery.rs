use sidecar_supervisor::parse_port_line;
use sidecar_supervisor::DiscoveryAction;
use sidecar_supervisor::OutputEvent;
use sidecar_supervisor::PortDiscovery;

#[test]
fn parses_valid_sentinel_line() {
    assert_eq!(parse_port_line(b"SANDCASTLE_SERVER_PORT=31822"), Some(31822));
}

#[test]
fn parses_with_surrounding_whitespace() {
    assert_eq!(parse_port_line(b"SANDCASTLE_SERVER_PORT= 31822 \r\n"), Some(31822));
    assert_eq!(parse_port_line(b"SANDCASTLE_SERVER_PORT=\t8080\n"), Some(8080));
}

#[test]
fn parses_leading_zeros() {
    assert_eq!(parse_port_line(b"SANDCASTLE_SERVER_PORT=0031822"), Some(31822));
    assert_eq!(parse_port_line(b"SANDCASTLE_SERVER_PORT=0"), Some(0));
}

#[test]
fn rejects_malformed_number() {
    assert_eq!(parse_port_line(b"SANDCASTLE_SERVER_PORT=notanumber"), None);
    assert_eq!(parse_port_line(b"SANDCASTLE_SERVER_PORT=31 822"), None);
    assert_eq!(parse_port_line(b"SANDCASTLE_SERVER_PORT=-1"), None);
    assert_eq!(parse_port_line(b"SANDCASTLE_SERVER_PORT=+31822"), None);
}

#[test]
fn rejects_out_of_range_port() {
    assert_eq!(parse_port_line(b"SANDCASTLE_SERVER_PORT=65535"), Some(65535));
    assert_eq!(parse_port_line(b"SANDCASTLE_SERVER_PORT=65536"), None);
    assert_eq!(parse_port_line(b"SANDCASTLE_SERVER_PORT=999999999999999999999"), None);
}

#[test]
fn rejects_empty_number() {
    assert_eq!(parse_port_line(b"SANDCASTLE_SERVER_PORT="), None);
    assert_eq!(parse_port_line(b"SANDCASTLE_SERVER_PORT=   "), None);
}

#[test]
fn rejects_lines_without_the_prefix() {
    assert_eq!(parse_port_line(b""), None);
    assert_eq!(parse_port_line(b"listening on port 31822"), None);
    assert_eq!(parse_port_line(b"XSANDCASTLE_SERVER_PORT=31822"), None);
    assert_eq!(parse_port_line(b" SANDCASTLE_SERVER_PORT=31822"), None);
    assert_eq!(parse_port_line(b"sandcastle_server_port=31822"), None);
}

#[test]
fn first_valid_line_wins_and_later_lines_are_ignored() {
    let mut discovery = PortDiscovery::new();
    assert_eq!(discovery.published(), None);
    let first = discovery.on_event(&OutputEvent::Stdout(b"SANDCASTLE_SERVER_PORT=31822".to_vec()));
    assert_eq!(first, DiscoveryAction::Publish(31822));
    let unrelated = discovery.on_event(&OutputEvent::Stdout(b"server warmed up".to_vec()));
    assert_eq!(unrelated, DiscoveryAction::LogStdout);
    assert_eq!(discovery.published(), Some(31822));
    // The channel is one-shot: a second announcement changes nothing.
    let second = discovery.on_event(&OutputEvent::Stdout(b"SANDCASTLE_SERVER_PORT=9999".to_vec()));
    assert_eq!(second, DiscoveryAction::LogStdout);
    assert_eq!(discovery.published(), Some(31822));
}

#[test]
fn malformed_number_is_skipped_and_discovery_keeps_waiting() {
    let mut discovery = PortDiscovery::new();
    let bad = discovery.on_event(&OutputEvent::Stdout(
        b"SANDCASTLE_SERVER_PORT=notanumber".to_vec(),
    ));
    assert_eq!(bad, DiscoveryAction::LogStdout);
    assert_eq!(discovery.published(), None);
    let good = discovery.on_event(&OutputEvent::Stdout(b"SANDCASTLE_SERVER_PORT=31822".to_vec()));
    assert_eq!(good, DiscoveryAction::Publish(31822));
    assert_eq!(discovery.published(), Some(31822));
}

#[test]
fn stderr_errors_and_termination_never_publish() {
    let mut discovery = PortDiscovery::new();
    let err_line = discovery.on_event(&OutputEvent::Stderr(
        b"SANDCASTLE_SERVER_PORT=31822".to_vec(),
    ));
    assert_eq!(err_line, DiscoveryAction::LogStderr);
    let proc_err = discovery.on_event(&OutputEvent::ProcessError(String::from(
        "SANDCASTLE_SERVER_PORT=31822",
    )));
    assert_eq!(proc_err, DiscoveryAction::LogError);
    let other = discovery.on_event(&OutputEvent::Other);
    assert_eq!(other, DiscoveryAction::Ignore);
    let term = discovery.on_event(&OutputEvent::Terminated);
    assert_eq!(term, DiscoveryAction::Finish);
    assert_eq!(discovery.published(), None);
}
