use leptos_browser_test::{
    cargo_leptos_shutdown_timeout, command, resolve_cargo_bin, CargoLeptosMode, CommandPlan, ParentEnv, Timeout,
    UnixGracefulSignal,
};

fn plan(
    mode: CargoLeptosMode,
    cargo_bin: Option<&str>,
    parent_env: &ParentEnv,
    extra_env: &Vec<(String, String)>,
) -> CommandPlan {
    command(
        mode,
        cargo_bin,
        parent_env,
        ".",
        "127.0.0.1:3000",
        3001,
        Timeout::from_secs(10),
        UnixGracefulSignal::Interrupt,
        extra_env,
    )
}

fn no_env() -> ParentEnv {
    ParentEnv { cargo: None, rust_backtrace_set: false }
}

fn pair(k: &str, v: &str) -> (String, String) {
    (k.to_owned(), v.to_owned())
}

#[test]
fn defaults_to_cargo_program() {
    let cmd = plan(CargoLeptosMode::Serve, None, &no_env(), &vec![]);
    assert_eq!(cmd.program, "cargo");

    let from_env = ParentEnv { cargo: Some("/home/u/.cargo/bin/cargo".to_owned()), rust_backtrace_set: false };
    let cmd = plan(CargoLeptosMode::Serve, None, &from_env, &vec![]);
    assert_eq!(cmd.program, "/home/u/.cargo/bin/cargo");
}

#[test]
fn with_cargo_overrides_program() {
    let env = ParentEnv { cargo: Some("/from/env/cargo".to_owned()), rust_backtrace_set: false };
    let cmd = plan(CargoLeptosMode::Watch, Some("/usr/local/bin/my-cargo"), &env, &vec![]);
    assert_eq!(cmd.program, "/usr/local/bin/my-cargo");
}

#[test]
fn passes_mode_arg() {
    let serve = plan(CargoLeptosMode::Serve, None, &no_env(), &vec![]);
    assert_eq!(serve.args, vec!["leptos".to_owned(), "serve".to_owned()]);

    let watch = plan(CargoLeptosMode::Watch, None, &no_env(), &vec![]);
    assert_eq!(watch.args, vec!["leptos".to_owned(), "watch".to_owned()]);
}

#[test]
fn sets_framework_env_vars() {
    let cmd = plan(CargoLeptosMode::Serve, None, &no_env(), &vec![]);
    let envs = cmd.envs;
    assert!(envs.contains(&pair("LEPTOS_SITE_ADDR", "127.0.0.1:3000")));
    assert!(envs.contains(&pair("LEPTOS_RELOAD_PORT", "3001")));
    assert!(envs.contains(&pair("LEPTOS_GRACEFUL_SHUTDOWN_TIMEOUT_SECS", "10")));
    assert!(envs.contains(&pair("LEPTOS_GRACEFUL_SHUTDOWN_UNIX_SIGNAL", "SIGINT")));
}

#[test]
fn extra_env_overrides_framework_env() {
    let cmd = plan(
        CargoLeptosMode::Serve,
        None,
        &no_env(),
        &vec![pair("LEPTOS_SITE_ADDR", "127.0.0.1:9999")],
    );
    let overrides = cmd
        .envs
        .iter()
        .filter(|(k, _)| k == "LEPTOS_SITE_ADDR")
        .collect::<Vec<_>>();
    assert_eq!(overrides.last().map(|(_, v)| v.as_str()), Some("127.0.0.1:9999"));
}

#[test]
fn env_order_is_framework_then_backtrace_then_extra() {
    let cmd = plan(CargoLeptosMode::Serve, None, &no_env(), &vec![pair("FOO", "bar")]);
    assert_eq!(
        cmd.envs,
        vec![
            pair("LEPTOS_SITE_ADDR", "127.0.0.1:3000"),
            pair("LEPTOS_RELOAD_PORT", "3001"),
            pair("LEPTOS_GRACEFUL_SHUTDOWN_TIMEOUT_SECS", "10"),
            pair("LEPTOS_GRACEFUL_SHUTDOWN_UNIX_SIGNAL", "SIGINT"),
            pair("RUST_BACKTRACE", "1"),
            pair("FOO", "bar"),
        ]
    );
    assert_eq!(cmd.current_dir, ".");
}

#[test]
fn parent_backtrace_is_left_alone() {
    let env = ParentEnv { cargo: None, rust_backtrace_set: true };
    let cmd = plan(CargoLeptosMode::Serve, None, &env, &vec![]);
    assert!(!cmd.envs.iter().any(|(k, _)| k == "RUST_BACKTRACE"));
    assert_eq!(cmd.envs.len(), 4);
}

#[test]
fn terminate_signal_and_timeout_seconds() {
    let cmd = command(
        CargoLeptosMode::Serve,
        None,
        &no_env(),
        "/srv/app",
        "127.0.0.1:3000",
        3001,
        Timeout::from_millis(30_900),
        UnixGracefulSignal::Terminate,
        &vec![],
    );
    assert!(cmd.envs.contains(&pair("LEPTOS_GRACEFUL_SHUTDOWN_TIMEOUT_SECS", "30")));
    assert!(cmd.envs.contains(&pair("LEPTOS_GRACEFUL_SHUTDOWN_UNIX_SIGNAL", "SIGTERM")));
    assert_eq!(cmd.current_dir, "/srv/app");
}

#[test]
fn resolve_cargo_bin_precedence() {
    assert_eq!(resolve_cargo_bin(Some("a"), Some("b")), "a");
    assert_eq!(resolve_cargo_bin(None, Some("b")), "b");
    assert_eq!(resolve_cargo_bin(None, None), "cargo");
}

#[test]
fn mode_and_signal_words() {
    assert_eq!(CargoLeptosMode::Serve.as_arg(), "serve");
    assert_eq!(CargoLeptosMode::Watch.as_arg(), "watch");
    assert_eq!(UnixGracefulSignal::Interrupt.label(), "SIGINT");
    assert_eq!(UnixGracefulSignal::Terminate.label(), "SIGTERM");
}

#[test]
fn cargo_leptos_gets_ten_seconds_beyond_the_app() {
    assert_eq!(cargo_leptos_shutdown_timeout(Timeout::from_secs(10)), Some(Timeout::from_secs(20)));
    assert_eq!(
        cargo_leptos_shutdown_timeout(Timeout::from_millis(1_500)),
        Some(Timeout::from_millis(11_500))
    );
    assert_eq!(cargo_leptos_shutdown_timeout(Timeout::from_secs(u64::MAX - 9)), None);
    assert_eq!(
        cargo_leptos_shutdown_timeout(Timeout::from_secs(u64::MAX - 10)),
        Some(Timeout::from_secs(u64::MAX))
    );
}
