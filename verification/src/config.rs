//! The configuration of a Leptos test app launch, built by chained setters.
use vstd::prelude::*;

use crate::cargo_leptos::{pairs_view, CargoLeptosMode, UnixGracefulSignal};
use crate::site::SiteScheme;
use crate::timeout::Timeout;

verus! {

/// Recent stdout/stderr lines kept for failure diagnostics, by default.
pub const DEFAULT_STARTUP_LOG_TAIL_LINES: usize = 200;

/// Seconds to wait for the startup line, by default: ten minutes.
pub const DEFAULT_STARTUP_TIMEOUT_SECS: u64 = 600;

/// Why the default startup timeout is what it is.
pub const DEFAULT_STARTUP_TIMEOUT_REASON: &'static str =
    "default — generous bound for a cold cargo-leptos compile of server + wasm";

/// Seconds allowed after the interrupt signal, by default.
pub const DEFAULT_INTERRUPT_TIMEOUT_SECS: u64 = 3;

/// Seconds allowed after the terminate signal, by default.
pub const DEFAULT_TERMINATE_TIMEOUT_SECS: u64 = 8;

/// Why the default termination timeouts are what they are.
pub const DEFAULT_TERMINATION_TIMEOUTS_REASON: &'static str =
    "default — graceful cargo-leptos shutdown before SIGKILL";

/// Seconds the app gets to shut down gracefully, by default.
pub const DEFAULT_GRACEFUL_SHUTDOWN_TIMEOUT_SECS: u64 = 10;

/// The configuration as plain values; each field mirrors the field of
/// `LeptosTestAppConfig` with the same name, strings as character
/// sequences and timeouts as (seconds, nanoseconds).
pub struct ConfigView {
    pub app_dir: Seq<char>,
    pub app_name: Seq<char>,
    pub mode: CargoLeptosMode,
    pub cargo_bin: Option<Seq<char>>,
    pub site_scheme: SiteScheme,
    pub site_addr: Option<Seq<char>>,
    pub reload_port: Option<u16>,
    pub startup_line: Option<Seq<char>>,
    pub startup_timeout: (u64, u32),
    pub startup_timeout_reason: Seq<char>,
    pub startup_log_tail_lines: usize,
    pub interrupt_timeout: (u64, u32),
    pub terminate_timeout: (u64, u32),
    pub termination_timeouts_reason: Seq<char>,
    pub graceful_shutdown_timeout: (u64, u32),
    pub graceful_shutdown_unix_signal: UnixGracefulSignal,
    pub forward_logs: bool,
    pub extra_env: Seq<(Seq<char>, Seq<char>)>,
}

/// The view of an optional string.
pub open spec fn opt_view(o: Option<String>) -> Option<Seq<char>> {
    match o {
        Some(s) => Some(s@),
        None => None,
    }
}

/// The configuration that `LeptosTestAppConfig::new(app_dir)` produces.
pub open spec fn default_config(app_dir: Seq<char>) -> ConfigView {
    ConfigView {
        app_dir,
        app_name: "Leptos test app"@,
        mode: CargoLeptosMode::Serve,
        cargo_bin: None,
        site_scheme: SiteScheme::Http,
        site_addr: None,
        reload_port: None,
        startup_line: None,
        startup_timeout: (DEFAULT_STARTUP_TIMEOUT_SECS, 0u32),
        startup_timeout_reason: DEFAULT_STARTUP_TIMEOUT_REASON@,
        startup_log_tail_lines: DEFAULT_STARTUP_LOG_TAIL_LINES,
        interrupt_timeout: (DEFAULT_INTERRUPT_TIMEOUT_SECS, 0u32),
        terminate_timeout: (DEFAULT_TERMINATE_TIMEOUT_SECS, 0u32),
        termination_timeouts_reason: DEFAULT_TERMINATION_TIMEOUTS_REASON@,
        graceful_shutdown_timeout: (DEFAULT_GRACEFUL_SHUTDOWN_TIMEOUT_SECS, 0u32),
        graceful_shutdown_unix_signal: UnixGracefulSignal::Interrupt,
        forward_logs: true,
        extra_env: Seq::empty(),
    }
}

/// Configuration for a Leptos test app process.
#[derive(Debug, Clone)]
pub struct LeptosTestAppConfig {
    /// The app directory, as given.
    pub app_dir: String,
    /// A descriptive app name used in logs and errors.
    pub app_name: String,
    /// `cargo leptos serve` or `cargo leptos watch`.
    pub mode: CargoLeptosMode,
    /// The cargo binary to run, where one is set.
    pub cargo_bin: Option<String>,
    /// The scheme of the browser-facing URL.
    pub site_scheme: SiteScheme,
    /// A fixed site address, where one is set.
    pub site_addr: Option<String>,
    /// A fixed reload port, where one is set.
    pub reload_port: Option<u16>,
    /// The line fragment that marks the app as ready, where one is set.
    pub startup_line: Option<String>,
    /// How long to wait for the startup line.
    pub startup_timeout: Timeout,
    /// Why the startup timeout is what it is.
    pub startup_timeout_reason: String,
    /// How many recent output lines are kept per stream.
    pub startup_log_tail_lines: usize,
    /// Time allowed after the interrupt signal.
    pub interrupt_timeout: Timeout,
    /// Time allowed after the terminate signal.
    pub terminate_timeout: Timeout,
    /// Why the termination timeouts are what they are.
    pub termination_timeouts_reason: String,
    /// Time the app gets to shut down gracefully.
    pub graceful_shutdown_timeout: Timeout,
    /// The Unix signal that asks the app to shut down.
    pub graceful_shutdown_unix_signal: UnixGracefulSignal,
    /// Whether captured output lines are forwarded to this process.
    pub forward_logs: bool,
    /// Extra environment entries for `cargo leptos`, in order.
    pub extra_env: Vec<(String, String)>,
}

impl View for LeptosTestAppConfig {
    type V = ConfigView;

    open spec fn view(&self) -> ConfigView {
        ConfigView {
            app_dir: self.app_dir@,
            app_name: self.app_name@,
            mode: self.mode,
            cargo_bin: opt_view(self.cargo_bin),
            site_scheme: self.site_scheme,
            site_addr: opt_view(self.site_addr),
            reload_port: self.reload_port,
            startup_line: opt_view(self.startup_line),
            startup_timeout: self.startup_timeout@,
            startup_timeout_reason: self.startup_timeout_reason@,
            startup_log_tail_lines: self.startup_log_tail_lines,
            interrupt_timeout: self.interrupt_timeout@,
            terminate_timeout: self.terminate_timeout@,
            termination_timeouts_reason: self.termination_timeouts_reason@,
            graceful_shutdown_timeout: self.graceful_shutdown_timeout@,
            graceful_shutdown_unix_signal: self.graceful_shutdown_unix_signal,
            forward_logs: self.forward_logs,
            extra_env: pairs_view(self.extra_env@),
        }
    }
}

impl LeptosTestAppConfig {
    /// Create a config for a test app directory, with the documented defaults.
    pub fn new(app_dir: &str) -> (c: Self)
        ensures
            c@ == default_config(app_dir@),
    {
        let c = LeptosTestAppConfig {
            app_dir: app_dir.to_owned(),
            app_name: "Leptos test app".to_owned(),
            mode: CargoLeptosMode::Serve,
            cargo_bin: None,
            site_scheme: SiteScheme::Http,
            site_addr: None,
            reload_port: None,
            startup_line: None,
            startup_timeout: Timeout::from_secs(DEFAULT_STARTUP_TIMEOUT_SECS),
            startup_timeout_reason: DEFAULT_STARTUP_TIMEOUT_REASON.to_owned(),
            startup_log_tail_lines: DEFAULT_STARTUP_LOG_TAIL_LINES,
            interrupt_timeout: Timeout::from_secs(DEFAULT_INTERRUPT_TIMEOUT_SECS),
            terminate_timeout: Timeout::from_secs(DEFAULT_TERMINATE_TIMEOUT_SECS),
            termination_timeouts_reason: DEFAULT_TERMINATION_TIMEOUTS_REASON.to_owned(),
            graceful_shutdown_timeout: Timeout::from_secs(DEFAULT_GRACEFUL_SHUTDOWN_TIMEOUT_SECS),
            graceful_shutdown_unix_signal: UnixGracefulSignal::Interrupt,
            forward_logs: true,
            extra_env: Vec::new(),
        };
        assert(c@.extra_env =~= Seq::<(Seq<char>, Seq<char>)>::empty());
        c
    }

    /// Set a descriptive app name used in logs and errors.
    pub fn with_app_name(self, app_name: &str) -> (c: Self)
        ensures
            c@ == (ConfigView { app_name: app_name@, ..self@ }),
    {
        let mut c = self;
        c.app_name = app_name.to_owned();
        c
    }

    /// Select `cargo leptos serve` or `cargo leptos watch`.
    pub fn with_mode(self, mode: CargoLeptosMode) -> (c: Self)
        ensures
            c@ == (ConfigView { mode, ..self@ }),
    {
        let mut c = self;
        c.mode = mode;
        c
    }

    /// Override the cargo binary used to invoke `cargo leptos`. If unset,
    /// `CARGO` from the environment is used where present, else `cargo`.
    pub fn with_cargo(self, cargo_bin: &str) -> (c: Self)
        ensures
            c@ == (ConfigView { cargo_bin: Some(cargo_bin@), ..self@ }),
    {
        let mut c = self;
        c.cargo_bin = Some(cargo_bin.to_owned());
        c
    }

    /// Set the browser-facing URL scheme; it does not configure TLS.
    pub fn with_site_scheme(self, site_scheme: SiteScheme) -> (c: Self)
        ensures
            c@ == (ConfigView { site_scheme, ..self@ }),
    {
        let mut c = self;
        c.site_scheme = site_scheme;
        c
    }

    /// Bind the app to a fixed site address such as `127.0.0.1:3000`. If
    /// not set, a free localhost port is selected.
    pub fn with_site_addr(self, site_addr: &str) -> (c: Self)
        ensures
            c@ == (ConfigView { site_addr: Some(site_addr@), ..self@ }),
    {
        let mut c = self;
        c.site_addr = Some(site_addr.to_owned());
        c
    }

    /// Use a fixed reload port. If not set, a free localhost port is selected.
    pub fn with_reload_port(self, reload_port: u16) -> (c: Self)
        ensures
            c@ == (ConfigView { reload_port: Some(reload_port), ..self@ }),
    {
        let mut c = self;
        c.reload_port = Some(reload_port);
        c
    }

    /// Override the output line fragment that marks the app as ready.
    pub fn with_startup_line(self, startup_line: &str) -> (c: Self)
        ensures
            c@ == (ConfigView { startup_line: Some(startup_line@), ..self@ }),
    {
        let mut c = self;
        c.startup_line = Some(startup_line.to_owned());
        c
    }

    /// Set the startup timeout, with a `reason` describing why this value
    /// was chosen; the reason is part of the timeout error.
    pub fn with_startup_timeout(self, timeout: Timeout, reason: &str) -> (c: Self)
        ensures
            c@ == (ConfigView {
                startup_timeout: timeout@,
                startup_timeout_reason: reason@,
                ..self@
            }),
    {
        let mut c = self;
        c.startup_timeout = timeout;
        c.startup_timeout_reason = reason.to_owned();
        c
    }

    /// Set how many recent stdout/stderr lines are retained for failure
    /// diagnostics.
    pub fn with_startup_log_tail_lines(self, lines: usize) -> (c: Self)
        ensures
            c@ == (ConfigView { startup_log_tail_lines: lines, ..self@ }),
    {
        let mut c = self;
        c.startup_log_tail_lines = lines;
        c
    }

    /// Set the termination timeouts, with a `reason` describing why these
    /// values were chosen.
    pub fn with_termination_timeouts(
        self,
        interrupt_timeout: Timeout,
        terminate_timeout: Timeout,
        reason: &str,
    ) -> (c: Self)
        ensures
            c@ == (ConfigView {
                interrupt_timeout: interrupt_timeout@,
                terminate_timeout: terminate_timeout@,
                termination_timeouts_reason: reason@,
                ..self@
            }),
    {
        let mut c = self;
        c.interrupt_timeout = interrupt_timeout;
        c.terminate_timeout = terminate_timeout;
        c.termination_timeouts_reason = reason.to_owned();
        c
    }

    /// Set the time the app gets to shut down gracefully when it is no
    /// longer needed.
    pub fn with_graceful_shutdown_timeout(self, timeout: Timeout) -> (c: Self)
        ensures
            c@ == (ConfigView { graceful_shutdown_timeout: timeout@, ..self@ }),
    {
        let mut c = self;
        c.graceful_shutdown_timeout = timeout;
        c
    }

    /// Set the Unix signal that asks the app to shut down.
    pub fn with_graceful_shutdown_unix_signal(self, signal: UnixGracefulSignal) -> (c: Self)
        ensures
            c@ == (ConfigView { graceful_shutdown_unix_signal: signal, ..self@ }),
    {
        let mut c = self;
        c.graceful_shutdown_unix_signal = signal;
        c
    }

    /// Add an environment variable for the `cargo leptos` process. Entries
    /// apply in the order added, after the launcher's own entries, so the
    /// last entry for a key wins.
    pub fn with_env(self, key: &str, value: &str) -> (c: Self)
        ensures
            c@ == (ConfigView { extra_env: self@.extra_env.push((key@, value@)), ..self@ }),
    {
        let mut c = self;
        let ghost before = c.extra_env@;
        c.extra_env.push((key.to_owned(), value.to_owned()));
        assert(pairs_view(c.extra_env@) =~= pairs_view(before).push((key@, value@)));
        c
    }

    /// Forward each captured stdout/stderr line to this process's
    /// stdout/stderr (the default), or keep the app silent.
    pub fn with_forward_logs(self, forward_logs: bool) -> (c: Self)
        ensures
            c@ == (ConfigView { forward_logs, ..self@ }),
    {
        let mut c = self;
        c.forward_logs = forward_logs;
        c
    }
}

} // verus!
