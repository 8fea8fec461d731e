//! Launcher logic for browser-driven tests of a Leptos app: configuration,
//! the `cargo leptos` command plan, port selection, startup-log capture, the
//! readiness and retry decisions, and the startup-failure diagnostics.

pub mod cargo_leptos;
pub mod config;
pub mod error;
pub mod launch;
pub mod ports;
pub mod site;
pub mod startup;
pub mod text;
pub mod timeout;

pub use cargo_leptos::{
    cargo_leptos_shutdown_timeout, command, resolve_cargo_bin, CargoLeptosMode, CommandPlan,
    ParentEnv, UnixGracefulSignal, CARGO_LEPTOS_SHUTDOWN_MARGIN_SECS,
};
pub use config::{
    ConfigView, LeptosTestAppConfig, DEFAULT_GRACEFUL_SHUTDOWN_TIMEOUT_SECS,
    DEFAULT_INTERRUPT_TIMEOUT_SECS, DEFAULT_STARTUP_LOG_TAIL_LINES, DEFAULT_STARTUP_TIMEOUT_REASON,
    DEFAULT_STARTUP_TIMEOUT_SECS, DEFAULT_TERMINATE_TIMEOUT_SECS,
    DEFAULT_TERMINATION_TIMEOUTS_REASON,
};
pub use error::{LeptosBrowserTestError, StartupFailureContext};
pub use launch::{
    combine_line_waits, combine_stream_waits, is_port_collision, resolve_runtime_config,
    startup_failure_context, startup_outcome, stderr_indicates_port_collision, LineWait, ResolveFailure, RuntimeConfig,
    StartAttempts, StartupWait, MAX_PORT_COLLISION_RETRIES,
};
pub use ports::{find_free_port_excluding, FailureCause, PortSource, FREE_PORT_ATTEMPTS};
pub use site::{format_base_url, loopback_addr, SiteScheme};
pub use startup::{StartupLogBuffer, StartupLogs};
pub use timeout::Timeout;
