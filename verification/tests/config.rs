use leptos_browser_test::{
    CargoLeptosMode, LeptosTestAppConfig, SiteScheme, Timeout, UnixGracefulSignal,
    DEFAULT_GRACEFUL_SHUTDOWN_TIMEOUT_SECS, DEFAULT_INTERRUPT_TIMEOUT_SECS,
    DEFAULT_STARTUP_LOG_TAIL_LINES, DEFAULT_STARTUP_TIMEOUT_REASON, DEFAULT_STARTUP_TIMEOUT_SECS,
    DEFAULT_TERMINATE_TIMEOUT_SECS, DEFAULT_TERMINATION_TIMEOUTS_REASON,
};

#[test]
fn new_uses_documented_defaults() {
    let config = LeptosTestAppConfig::new("./test-app");

    assert_eq!(config.app_name, "Leptos test app");
    assert_eq!(config.mode, CargoLeptosMode::Serve);
    assert_eq!(config.cargo_bin, None);
    assert_eq!(config.site_scheme, SiteScheme::Http);
    assert_eq!(config.site_addr, None);
    assert_eq!(config.reload_port, None);
    assert_eq!(config.startup_line, None);
    assert_eq!(config.startup_timeout, Timeout::from_secs(DEFAULT_STARTUP_TIMEOUT_SECS));
    assert_eq!(config.startup_timeout_reason, DEFAULT_STARTUP_TIMEOUT_REASON);
    assert_eq!(config.startup_log_tail_lines, DEFAULT_STARTUP_LOG_TAIL_LINES);
    assert_eq!(config.interrupt_timeout, Timeout::from_secs(DEFAULT_INTERRUPT_TIMEOUT_SECS));
    assert_eq!(config.terminate_timeout, Timeout::from_secs(DEFAULT_TERMINATE_TIMEOUT_SECS));
    assert_eq!(config.termination_timeouts_reason, DEFAULT_TERMINATION_TIMEOUTS_REASON);
    assert!(config.forward_logs);
    assert!(config.extra_env.is_empty());
}

#[test]
fn default_constants_match_documented_values() {
    assert_eq!(DEFAULT_STARTUP_LOG_TAIL_LINES, 200);
    assert_eq!(Timeout::from_secs(DEFAULT_STARTUP_TIMEOUT_SECS), Timeout::from_secs(60 * 10));
    assert_eq!(Timeout::from_secs(DEFAULT_INTERRUPT_TIMEOUT_SECS), Timeout::from_secs(3));
    assert_eq!(Timeout::from_secs(DEFAULT_TERMINATE_TIMEOUT_SECS), Timeout::from_secs(8));
}

#[test]
fn setters_override_defaults() {
    let config = LeptosTestAppConfig::new("./test-app")
        .with_app_name("custom")
        .with_mode(CargoLeptosMode::Watch)
        .with_cargo("/opt/cargo")
        .with_site_scheme(SiteScheme::Https)
        .with_site_addr("127.0.0.1:4000")
        .with_reload_port(4001)
        .with_startup_line("ready")
        .with_startup_timeout(Timeout::from_secs(5), "tight bound for unit-style smoke test")
        .with_startup_log_tail_lines(10)
        .with_termination_timeouts(
            Timeout::from_millis(100),
            Timeout::from_millis(500),
            "test fixture exits immediately on SIGTERM",
        )
        .with_forward_logs(false)
        .with_env("FOO", "bar");

    assert_eq!(config.app_name, "custom");
    assert_eq!(config.mode, CargoLeptosMode::Watch);
    assert_eq!(config.cargo_bin, Some("/opt/cargo".to_owned()));
    assert_eq!(config.site_scheme, SiteScheme::Https);
    assert_eq!(config.site_addr, Some("127.0.0.1:4000".to_owned()));
    assert_eq!(config.reload_port, Some(4001));
    assert_eq!(config.startup_line, Some("ready".to_owned()));
    assert_eq!(config.startup_timeout, Timeout::from_secs(5));
    assert_eq!(config.startup_timeout_reason, "tight bound for unit-style smoke test");
    assert_eq!(config.startup_log_tail_lines, 10);
    assert_eq!(config.interrupt_timeout, Timeout::from_millis(100));
    assert_eq!(config.terminate_timeout, Timeout::from_millis(500));
    assert_eq!(config.termination_timeouts_reason, "test fixture exits immediately on SIGTERM");
    assert!(!config.forward_logs);
    assert_eq!(config.extra_env.len(), 1);
}

#[test]
fn graceful_shutdown_defaults_and_setters() {
    let config = LeptosTestAppConfig::new("app");
    assert_eq!(config.app_dir, "app");
    assert_eq!(
        config.graceful_shutdown_timeout,
        Timeout::from_secs(DEFAULT_GRACEFUL_SHUTDOWN_TIMEOUT_SECS)
    );
    assert_eq!(DEFAULT_GRACEFUL_SHUTDOWN_TIMEOUT_SECS, 10);
    assert_eq!(config.graceful_shutdown_unix_signal, UnixGracefulSignal::Interrupt);

    let config = config
        .with_graceful_shutdown_timeout(Timeout::from_secs(30))
        .with_graceful_shutdown_unix_signal(UnixGracefulSignal::Terminate);
    assert_eq!(config.graceful_shutdown_timeout, Timeout::from_secs(30));
    assert_eq!(config.graceful_shutdown_unix_signal, UnixGracefulSignal::Terminate);
    assert_eq!(config.app_name, "Leptos test app");
}

#[test]
fn with_env_keeps_insertion_order() {
    let config = LeptosTestAppConfig::new("app").with_env("A", "1").with_env("A", "2");
    assert_eq!(
        config.extra_env,
        vec![("A".to_owned(), "1".to_owned()), ("A".to_owned(), "2".to_owned())]
    );
}

#[test]
fn timeout_parts() {
    let t = Timeout::from_millis(1500);
    assert_eq!(t.as_secs(), 1);
    assert_eq!(t.subsec_nanos(), 500_000_000);
    assert_eq!(t.debug_string(), "1.5s");
    assert_eq!(Timeout::from_secs(7).debug_string(), "7s");
}

#[test]
fn timeout_text_matches_duration_debug() {
    let nanos = [
        0u32, 1, 9, 10, 999, 1_000, 1_001, 1_500, 999_999, 1_000_000, 1_000_001, 1_234_567,
        100_000_000, 250_000_000, 500_000_000, 999_999_999, 120_000, 7_000,
    ];
    let secs = [0u64, 1, 7, 59, 600, 3_600, u64::MAX];
    for &s in &secs {
        for &n in &nanos {
            let expected = format!("{:?}", std::time::Duration::new(s, n));
            assert_eq!(Timeout::from_parts(s, n).debug_string(), expected, "secs {s} nanos {n}");
        }
    }
    assert_eq!(Timeout::from_millis(250).debug_string(), "250ms");
    assert_eq!(Timeout::from_parts(0, 1_500).debug_string(), "1.5µs");
}
