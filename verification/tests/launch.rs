use std::cell::Cell;

use leptos_browser_test::{
    combine_line_waits, combine_stream_waits, is_port_collision, resolve_runtime_config, startup_failure_context, startup_outcome, stderr_indicates_port_collision,
    FailureCause, LeptosBrowserTestError, LeptosTestAppConfig, LineWait, SiteScheme,
    PortSource, StartAttempts, StartupFailureContext, StartupLogs, StartupWait, Timeout,
    MAX_PORT_COLLISION_RETRIES,
};

fn ctx_with_stderr(stderr: &str) -> StartupFailureContext {
    StartupFailureContext {
        app_name: "demo".to_owned(),
        expected_line: "listening on".to_owned(),
        stdout_tail: String::new(),
        stderr_tail: stderr.to_owned(),
    }
}

#[test]
fn detects_unix_address_already_in_use() {
    assert!(stderr_indicates_port_collision("Error: Address already in use (os error 48)"));
}

#[test]
fn detects_lowercase_address_already_in_use() {
    assert!(stderr_indicates_port_collision("thread 'main' panicked: address already in use"));
}

#[test]
fn detects_windows_phrasing() {
    assert!(stderr_indicates_port_collision(
        "Only one usage of each socket address (protocol/network address/port) is normally permitted"
    ));
}

#[test]
fn rejects_unrelated_errors() {
    assert!(!stderr_indicates_port_collision("error: linking with `cc` failed: exit status: 1"));
    assert!(!stderr_indicates_port_collision(""));
}

#[test]
fn detects_shouting_and_partial_phrases() {
    assert!(stderr_indicates_port_collision("ADDRESS ALREADY IN USE"));
    assert!(!stderr_indicates_port_collision("address already in us"));
    assert!(stderr_indicates_port_collision("xaddress already in usex"));
}

#[test]
fn is_port_collision_recognizes_startup_timed_out() {
    let err = LeptosBrowserTestError::StartupTimedOut {
        ctx: ctx_with_stderr("Address already in use"),
        timeout: Timeout::from_secs(5),
        reason: "test".to_owned(),
    };
    assert!(is_port_collision(&err));
}

#[test]
fn is_port_collision_recognizes_stdout_closed() {
    let err = LeptosBrowserTestError::StartupStdoutClosed(ctx_with_stderr("address already in use"));
    assert!(is_port_collision(&err));
}

#[test]
fn is_port_collision_ignores_unrelated_variants() {
    let err = LeptosBrowserTestError::FindFreeSitePort { app_name: "demo".to_owned() };
    assert!(!is_port_collision(&err));
}

#[test]
fn is_port_collision_ignores_startup_with_clean_stderr() {
    let err = LeptosBrowserTestError::StartupTimedOut {
        ctx: ctx_with_stderr("compilation error: ..."),
        timeout: Timeout::from_secs(5),
        reason: "test".to_owned(),
    };
    assert!(!is_port_collision(&err));
}

#[test]
fn is_port_collision_reads_stdout_too() {
    let mut ctx = ctx_with_stderr("");
    ctx.stdout_tail = "Address already in use".to_owned();
    assert!(is_port_collision(&LeptosBrowserTestError::StreamRead(ctx)));
}

fn failing_allocator() -> impl Fn() -> Result<u16, &'static str> {
    || Err("no ports")
}

#[test]
fn resolve_uses_pinned_values() {
    let config = LeptosTestAppConfig::new("app")
        .with_site_addr("127.0.0.1:4000")
        .with_reload_port(4001);
    let rc = resolve_runtime_config(&config, Ok::<String, &str>("/abs/app".to_owned()), Some(4000), &mut PortSource::new(failing_allocator()))
        .expect("pinned ports need no allocation");
    assert_eq!(rc.app_dir, "/abs/app");
    assert_eq!(rc.site_addr, "127.0.0.1:4000");
    assert_eq!(rc.site_port, 4000);
    assert_eq!(rc.reload_port, 4001);
    assert_eq!(rc.base_url, "http://127.0.0.1:4000");
    assert_eq!(rc.startup_line, "listening on http://127.0.0.1:4000");
}

#[test]
fn resolve_allocates_distinct_ports() {
    let next = Cell::new(5000u16);
    let allocate = || {
        let p = next.get();
        if p == 5001 {
            next.set(5002);
            Ok::<u16, ()>(5000)
        } else {
            next.set(p + 1);
            Ok(p)
        }
    };
    let config = LeptosTestAppConfig::new("app").with_site_scheme(SiteScheme::Https);
    let rc = resolve_runtime_config(&config, Ok("/abs".to_owned()), None, &mut PortSource::new(allocate)).expect("ports");
    assert_eq!(rc.site_addr, "127.0.0.1:5000");
    assert_eq!(rc.site_port, 5000);
    assert_eq!(rc.reload_port, 5002);
    assert_eq!(rc.base_url, "https://127.0.0.1:5000");
    assert_eq!(rc.startup_line, "listening on https://127.0.0.1:5000");
}

#[test]
fn resolve_keeps_custom_startup_line() {
    let config = LeptosTestAppConfig::new("app").with_startup_line("ready").with_reload_port(9);
    let rc = resolve_runtime_config(&config, Ok::<String, ()>("/abs".to_owned()), None, &mut PortSource::new(|| Ok(8)))
        .expect("ports");
    assert_eq!(rc.startup_line, "ready");
    assert_eq!(rc.reload_port, 9);
    assert_eq!(rc.site_addr, "127.0.0.1:8");
}

#[test]
fn resolve_reports_unresolvable_directory() {
    let config = LeptosTestAppConfig::new("./missing").with_app_name("demo");
    let err = resolve_runtime_config(&config, Err("not found"), None, &mut PortSource::new(|| Ok(1))).unwrap_err();
    assert_eq!(
        err.context,
        LeptosBrowserTestError::ResolveAppDir { app_name: "demo".to_owned(), app_dir: "./missing".to_owned() }
    );
    assert!(matches!(err.cause, Some(FailureCause::Io("not found"))));
}

#[test]
fn resolve_rejects_unparsable_site_addr() {
    let config = LeptosTestAppConfig::new("app").with_app_name("demo").with_site_addr("not-a-socket");
    let err = resolve_runtime_config(&config, Ok::<String, ()>("/abs".to_owned()), None, &mut PortSource::new(|| Ok(1)))
        .unwrap_err();
    assert_eq!(
        err.context,
        LeptosBrowserTestError::InvalidSiteAddr { app_name: "demo".to_owned(), site_addr: "not-a-socket".to_owned() }
    );
    assert!(err.cause.is_none());
}

#[test]
fn resolve_reports_site_and_reload_port_failures() {
    let config = LeptosTestAppConfig::new("app").with_app_name("demo");
    let err = resolve_runtime_config(&config, Ok("/abs".to_owned()), None, &mut PortSource::new(failing_allocator())).unwrap_err();
    assert_eq!(err.context, LeptosBrowserTestError::FindFreeSitePort { app_name: "demo".to_owned() });

    let pinned_site = config.with_site_addr("127.0.0.1:3000");
    let err = resolve_runtime_config(&pinned_site, Ok("/abs".to_owned()), Some(3000), &mut PortSource::new(|| Ok::<u16, ()>(3000)))
        .unwrap_err();
    assert_eq!(err.context, LeptosBrowserTestError::FindFreeReloadPort { app_name: "demo".to_owned() });
    assert!(matches!(err.cause, Some(FailureCause::ExcludedPortRepeated)));
}

#[test]
fn combines_line_waits() {
    let (matched, closed, timed_out) = (LineWait::Matched, LineWait::StreamClosed, LineWait::Timeout);
    assert_eq!(combine_line_waits(None, None), None);
    assert_eq!(combine_line_waits(Some(closed), None), None);
    assert_eq!(combine_line_waits(None, Some(matched)), Some(matched));
    assert_eq!(combine_line_waits(Some(matched), Some(timed_out)), Some(matched));
    assert_eq!(combine_line_waits(Some(closed), Some(closed)), Some(closed));
    assert_eq!(combine_line_waits(Some(closed), Some(timed_out)), Some(timed_out));
    assert_eq!(combine_line_waits(Some(timed_out), Some(timed_out)), Some(timed_out));
}

#[test]
fn startup_outcome_maps_each_wait() {
    let config = LeptosTestAppConfig::new("app")
        .with_app_name("demo")
        .with_startup_timeout(Timeout::from_secs(5), "why");
    let mut logs = StartupLogs::new(4);
    logs.stderr.push("boom");

    assert_eq!(startup_outcome(StartupWait::Line(LineWait::Matched), &config, "ready", &logs), Ok(()));

    let expected_ctx = || StartupFailureContext {
        app_name: "demo".to_owned(),
        expected_line: "ready".to_owned(),
        stdout_tail: "<no output captured>".to_owned(),
        stderr_tail: "boom".to_owned(),
    };
    assert_eq!(
        startup_outcome(StartupWait::Line(LineWait::StreamClosed), &config, "ready", &logs),
        Err(LeptosBrowserTestError::StartupStdoutClosed(expected_ctx()))
    );
    assert_eq!(
        startup_outcome(StartupWait::Line(LineWait::Timeout), &config, "ready", &logs),
        Err(LeptosBrowserTestError::StartupTimedOut {
            ctx: expected_ctx(),
            timeout: Timeout::from_secs(5),
            reason: "why".to_owned(),
        })
    );
    assert_eq!(
        startup_outcome(StartupWait::ReadFailed, &config, "ready", &logs),
        Err(LeptosBrowserTestError::StreamRead(expected_ctx()))
    );
    assert_eq!(startup_failure_context("demo", "ready", &logs), expected_ctx());
}

#[test]
fn retries_only_collisions_within_the_bound() {
    let collision = LeptosBrowserTestError::StartupStdoutClosed(ctx_with_stderr("address already in use"));
    let other = LeptosBrowserTestError::StartupStdoutClosed(ctx_with_stderr("compile error"));

    let auto = LeptosTestAppConfig::new("app");
    let mut attempts = StartAttempts::new(&auto);
    assert_eq!(attempts.max_attempts(), MAX_PORT_COLLISION_RETRIES + 1);
    assert_eq!(attempts.attempt(), 1);
    assert!(attempts.retry_after(&collision));
    assert!(attempts.retry_after(&collision));
    assert!(attempts.retry_after(&collision));
    assert_eq!(attempts.attempt(), 4);
    assert!(!attempts.retry_after(&collision));
    assert_eq!(attempts.attempt(), 4);

    let mut attempts = StartAttempts::new(&auto);
    assert!(!attempts.retry_after(&other));
    assert_eq!(attempts.attempt(), 1);

    let half_pinned = LeptosTestAppConfig::new("app").with_reload_port(2);
    assert_eq!(StartAttempts::new(&half_pinned).max_attempts(), 4);

    let pinned = LeptosTestAppConfig::new("app").with_site_addr("127.0.0.1:1").with_reload_port(2);
    let mut attempts = StartAttempts::new(&pinned);
    assert_eq!(attempts.max_attempts(), 1);
    assert!(!attempts.retry_after(&collision));
}

#[test]
fn resolve_asks_for_no_port_when_both_are_pinned() {
    let calls = Cell::new(0u32);
    let allocate = || {
        calls.set(calls.get() + 1);
        Ok::<u16, ()>(1)
    };
    let config = LeptosTestAppConfig::new("app").with_site_addr("[::1]:3000").with_reload_port(3001);
    let rc = resolve_runtime_config(&config, Ok("/abs".to_owned()), Some(3000), &mut PortSource::new(allocate))
        .expect("pinned");
    assert_eq!(calls.get(), 0);
    assert_eq!(rc.base_url, "http://[::1]:3000");
}

#[test]
fn a_read_failure_ends_the_wait_at_once() {
    let failed = Some(StartupWait::ReadFailed);
    let matched = Some(StartupWait::Line(LineWait::Matched));
    let closed = Some(StartupWait::Line(LineWait::StreamClosed));
    assert_eq!(combine_stream_waits(failed, None), failed);
    assert_eq!(combine_stream_waits(None, failed), failed);
    assert_eq!(combine_stream_waits(closed, failed), failed);
    assert_eq!(combine_stream_waits(None, matched), matched);
    assert_eq!(combine_stream_waits(closed, None), None);
    assert_eq!(combine_stream_waits(closed, closed), closed);
    assert_eq!(
        combine_stream_waits(closed, Some(StartupWait::Line(LineWait::Timeout))),
        Some(StartupWait::Line(LineWait::Timeout))
    );
}
