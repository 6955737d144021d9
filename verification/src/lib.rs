//! Supervision logic for a local "sidecar" server process embedded in a
//! desktop application: discovering the ephemeral port the child bound from
//! its output stream, budgeting the readiness probes against its health
//! endpoint, and the start/stop/query state machine that owns the child
//! handle — plus the markdown rendering and the small platform-integration
//! decisions (dock badge text, frame-rate preference lookup) the host asks
//! the backend for.
//!
//! The pieces that must touch the operating system — spawning, stream I/O,
//! HTTP, timers, platform APIs — live with the surrounding runtime;
//! everything decided here is verified.

mod discovery;
mod dock;
mod health;
mod high_refresh_rate;
mod markdown;
mod sidecar;

pub use discovery::all_digits;
pub use discovery::digits_value;
pub use discovery::has_sentinel_prefix;
pub use discovery::is_ascii_digit;
pub use discovery::is_ascii_whitespace;
pub use discovery::lemma_first_announcement_wins;
pub use discovery::lemma_no_announcement_no_publication;
pub use discovery::lemma_publication_is_final;
pub use discovery::parse_port_line;
pub use discovery::run_events;
pub use discovery::sentinel_prefix;
pub use discovery::spec_action;
pub use discovery::spec_event_port;
pub use discovery::spec_parse_port;
pub use discovery::spec_parse_port_line;
pub use discovery::spec_step;
pub use discovery::trim_end;
pub use discovery::trim_start;
pub use discovery::trimmed;
pub use discovery::DiscoveryAction;
pub use discovery::OutputEvent;
pub use discovery::PortDiscovery;
pub use dock::badge_label;
pub use dock::decimal_digits;
pub use dock::lemma_decimal_digits_value;
pub use dock::spec_badge_label;
pub use health::HealthPoller;
pub use health::HealthStep;
pub use health::HEALTH_CHECK_DELAY_MS;
pub use health::HEALTH_CHECK_MAX_ATTEMPTS;
pub use health::HEALTH_CHECK_REQUEST_TIMEOUT_S;
pub use health::HEALTH_CHECK_TOTAL_BUDGET_MS;
pub use high_refresh_rate::contains_seq;
pub use high_refresh_rate::find_frame_rate_feature;
pub use high_refresh_rate::is_frame_rate_cap_key;
pub use high_refresh_rate::marker_lower;
pub use high_refresh_rate::marker_upper;
pub use high_refresh_rate::spec_is_frame_rate_cap_key;
pub use markdown::html_of;
pub use markdown::parse_markdown;
pub use sidecar::lemma_discovery_timeout_records_no_port;
pub use sidecar::lemma_late_failure_leaves_child_running;
pub use sidecar::lemma_restart_spawns_new_child;
pub use sidecar::lemma_second_start_observes_first;
pub use sidecar::lemma_stop_without_child_is_noop;
pub use sidecar::spec_start;
pub use sidecar::spec_stop;
pub use sidecar::stop_outcome;
pub use sidecar::PortWaitOutcome;
pub use sidecar::SidecarError;
pub use sidecar::SidecarState;
pub use sidecar::StartAction;
pub use sidecar::StartEvent;
pub use sidecar::StopAction;
pub use sidecar::PORT_PARSE_TIMEOUT_MS;
