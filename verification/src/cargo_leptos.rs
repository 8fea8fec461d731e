//! The `cargo leptos` invocation: program, arguments, working directory and
//! environment, as a plan that the caller turns into a process.
use vstd::prelude::*;

use crate::text::{decimal, decimal_string};
use crate::timeout::Timeout;

verus! {

/// `cargo leptos` mode used to start the test app.
#[derive(Debug, Clone, Copy, PartialEq, Eq, Structural)]
pub enum CargoLeptosMode {
    /// Run `cargo leptos serve`.
    Serve,
    /// Run `cargo leptos watch`.
    Watch,
}

impl CargoLeptosMode {
    /// The subcommand word of the mode.
    pub open spec fn arg(self) -> Seq<char> {
        match self {
            CargoLeptosMode::Serve => "serve"@,
            CargoLeptosMode::Watch => "watch"@,
        }
    }

    /// The subcommand word: `serve` or `watch`.
    pub fn as_arg(self) -> (r: &'static str)
        ensures
            r@ == self.arg(),
    {
        match self {
            CargoLeptosMode::Serve => "serve",
            CargoLeptosMode::Watch => "watch",
        }
    }
}

/// The Unix signal with which the app is asked to shut down.
#[derive(Debug, Clone, Copy, PartialEq, Eq, Structural)]
pub enum UnixGracefulSignal {
    /// `SIGINT`.
    Interrupt,
    /// `SIGTERM`.
    Terminate,
}

impl UnixGracefulSignal {
    /// The signal's name as `cargo leptos` expects it.
    pub open spec fn name(self) -> Seq<char> {
        match self {
            UnixGracefulSignal::Interrupt => "SIGINT"@,
            UnixGracefulSignal::Terminate => "SIGTERM"@,
        }
    }

    /// The signal's name: `SIGINT` or `SIGTERM`.
    pub fn label(self) -> (r: &'static str)
        ensures
            r@ == self.name(),
    {
        match self {
            UnixGracefulSignal::Interrupt => "SIGINT",
            UnixGracefulSignal::Terminate => "SIGTERM",
        }
    }
}

/// Seconds that `cargo leptos` itself gets to shut down beyond the app's own
/// graceful-shutdown budget, which it must not undercut.
pub const CARGO_LEPTOS_SHUTDOWN_MARGIN_SECS: u64 = 10;

/// How long `cargo leptos` is given to shut down when the app is dropped:
/// the app's graceful-shutdown timeout plus
/// `CARGO_LEPTOS_SHUTDOWN_MARGIN_SECS`, or `None` where that sum does not
/// fit.
pub fn cargo_leptos_shutdown_timeout(graceful_shutdown_timeout: Timeout) -> (t: Option<Timeout>)
    ensures
        t matches Some(t) ==> t@ == (
            (graceful_shutdown_timeout@.0 + CARGO_LEPTOS_SHUTDOWN_MARGIN_SECS) as u64,
            graceful_shutdown_timeout@.1,
        ),
        t is None <==> graceful_shutdown_timeout@.0 + CARGO_LEPTOS_SHUTDOWN_MARGIN_SECS > u64::MAX,
{
    graceful_shutdown_timeout.checked_add_secs(CARGO_LEPTOS_SHUTDOWN_MARGIN_SECS)
}

/// What the launcher reads from its own environment.
#[derive(Debug)]
pub struct ParentEnv {
    /// The value of `CARGO`, where it is set.
    pub cargo: Option<String>,
    /// Whether `RUST_BACKTRACE` is set.
    pub rust_backtrace_set: bool,
}

/// The cargo binary: the configured one, else `CARGO` from the
/// environment, else `cargo`.
pub open spec fn cargo_program(cargo_bin: Option<Seq<char>>, env_cargo: Option<Seq<char>>) -> Seq<char> {
    match cargo_bin {
        Some(bin) => bin,
        None => match env_cargo {
            Some(bin) => bin,
            None => "cargo"@,
        },
    }
}

/// The views of a list of string pairs.
pub open spec fn pairs_view(v: Seq<(String, String)>) -> Seq<(Seq<char>, Seq<char>)> {
    v.map_values(|p: (String, String)| (p.0@, p.1@))
}

/// The environment that the launcher itself sets for `cargo leptos`, in
/// order: site address, reload port, graceful-shutdown seconds and signal,
/// and `RUST_BACKTRACE=1` where the parent does not set it.
pub open spec fn framework_env(
    site_addr: Seq<char>,
    reload_port: u16,
    shutdown_secs: u64,
    signal: UnixGracefulSignal,
    rust_backtrace_set: bool,
) -> Seq<(Seq<char>, Seq<char>)> {
    let base = seq![
        ("LEPTOS_SITE_ADDR"@, site_addr),
        ("LEPTOS_RELOAD_PORT"@, decimal(reload_port as nat)),
        ("LEPTOS_GRACEFUL_SHUTDOWN_TIMEOUT_SECS"@, decimal(shutdown_secs as nat)),
        ("LEPTOS_GRACEFUL_SHUTDOWN_UNIX_SIGNAL"@, signal.name()),
    ];
    if rust_backtrace_set {
        base
    } else {
        base.push(("RUST_BACKTRACE"@, "1"@))
    }
}

/// The value a process sees for `key` when the entries of `envs` are set in
/// order: that of the last entry with this key.
pub open spec fn effective_value(envs: Seq<(Seq<char>, Seq<char>)>, key: Seq<char>) -> Option<Seq<char>>
    decreases envs.len(),
{
    if envs.len() == 0 {
        None
    } else if envs.last().0 == key {
        Some(envs.last().1)
    } else {
        effective_value(envs.drop_last(), key)
    }
}

/// Everything needed to spawn `cargo leptos`.
#[derive(Debug)]
pub struct CommandPlan {
    /// The program to run.
    pub program: String,
    /// Its arguments.
    pub args: Vec<String>,
    /// Its working directory.
    pub current_dir: String,
    /// Environment entries, applied in order (a later entry wins).
    pub envs: Vec<(String, String)>,
}

impl CommandPlan {
    /// The arguments as character sequences.
    pub open spec fn args_view(&self) -> Seq<Seq<char>> {
        self.args@.map_values(|a: String| a@)
    }

    /// The environment entries as pairs of character sequences.
    pub open spec fn envs_view(&self) -> Seq<(Seq<char>, Seq<char>)> {
        pairs_view(self.envs@)
    }
}

/// Picks the cargo binary: the configured one, else `CARGO` from the
/// environment, else `cargo`.
pub fn resolve_cargo_bin(cargo_bin: Option<&str>, env_cargo: Option<&str>) -> (r: String)
    ensures
        r@ == cargo_program(
            match cargo_bin { Some(b) => Some(b@), None => None },
            match env_cargo { Some(b) => Some(b@), None => None },
        ),
{
    match cargo_bin {
        Some(bin) => bin.to_owned(),
        None => match env_cargo {
            Some(bin) => bin.to_owned(),
            None => "cargo".to_owned(),
        },
    }
}

fn push_pair(envs: &mut Vec<(String, String)>, key: &str, value: String)
    ensures
        pairs_view(final(envs)@) == pairs_view(old(envs)@).push((key@, value@)),
{
    let ghost before = envs@;
    envs.push((key.to_owned(), value));
    assert(pairs_view(envs@) =~= pairs_view(before).push((key@, value@)));
}

/// The plan for `cargo leptos <mode>` in `app_dir`: the framework
/// environment first, then `extra_env` in its order, so that an extra entry
/// overrides a framework entry with the same key.
pub fn command(
    mode: CargoLeptosMode,
    cargo_bin: Option<&str>,
    parent_env: &ParentEnv,
    app_dir: &str,
    site_addr: &str,
    reload_port: u16,
    graceful_shutdown_timeout: Timeout,
    graceful_shutdown_unix_signal: UnixGracefulSignal,
    extra_env: &Vec<(String, String)>,
) -> (plan: CommandPlan)
    ensures
        plan.program@ == cargo_program(
            match cargo_bin { Some(b) => Some(b@), None => None },
            match parent_env.cargo { Some(b) => Some(b@), None => None },
        ),
        plan.args_view() == seq!["leptos"@, mode.arg()],
        plan.current_dir@ == app_dir@,
        plan.envs_view() == framework_env(
            site_addr@,
            reload_port,
            graceful_shutdown_timeout@.0,
            graceful_shutdown_unix_signal,
            parent_env.rust_backtrace_set,
        ) + pairs_view(extra_env@),
        effective_value(pairs_view(extra_env@), "LEPTOS_GRACEFUL_SHUTDOWN_UNIX_SIGNAL"@) is None
            ==> effective_value(plan.envs_view(), "LEPTOS_GRACEFUL_SHUTDOWN_UNIX_SIGNAL"@) == Some(
            match graceful_shutdown_unix_signal {
                UnixGracefulSignal::Terminate => "SIGTERM"@,
                UnixGracefulSignal::Interrupt => "SIGINT"@,
            },
        ),
{
    let env_cargo: Option<&str> = match &parent_env.cargo {
        Some(c) => Some(c.as_str()),
        None => None,
    };
    let program = resolve_cargo_bin(cargo_bin, env_cargo);

    let mut args: Vec<String> = Vec::new();
    args.push("leptos".to_owned());
    args.push(mode.as_arg().to_owned());
    assert(args@.map_values(|a: String| a@) =~= seq!["leptos"@, mode.arg()]);

    let mut envs: Vec<(String, String)> = Vec::new();
    push_pair(&mut envs, "LEPTOS_SITE_ADDR", site_addr.to_owned());
    push_pair(&mut envs, "LEPTOS_RELOAD_PORT", decimal_string(reload_port as u64));
    push_pair(
        &mut envs,
        "LEPTOS_GRACEFUL_SHUTDOWN_TIMEOUT_SECS",
        decimal_string(graceful_shutdown_timeout.as_secs()),
    );
    push_pair(
        &mut envs,
        "LEPTOS_GRACEFUL_SHUTDOWN_UNIX_SIGNAL",
        graceful_shutdown_unix_signal.label().to_owned(),
    );
    if !parent_env.rust_backtrace_set {
        push_pair(&mut envs, "RUST_BACKTRACE", "1".to_owned());
    }
    let ghost framework = pairs_view(envs@);
    assert(framework =~= framework_env(
        site_addr@,
        reload_port,
        graceful_shutdown_timeout@.0,
        graceful_shutdown_unix_signal,
        parent_env.rust_backtrace_set,
    ));

    let mut i: usize = 0;
    while i < extra_env.len()
        invariant
            i <= extra_env.len(),
            pairs_view(envs@) == framework + pairs_view(extra_env@).take(i as int),
        decreases extra_env.len() - i,
    {
        let key = extra_env[i].0.clone();
        let value = extra_env[i].1.clone();
        let ghost before = envs@;
        envs.push((key, value));
        assert(pairs_view(extra_env@).take(i + 1) =~= pairs_view(extra_env@).take(i as int).push(
            (extra_env@[i as int].0@, extra_env@[i as int].1@),
        ));
        assert(pairs_view(envs@) =~= pairs_view(before).push((key@, value@)));
        i = i + 1;
    }
    assert(pairs_view(extra_env@).take(extra_env.len() as int) =~= pairs_view(extra_env@));
    proof {
        lemma_framework_env_layout(
            site_addr@,
            reload_port,
            graceful_shutdown_timeout@.0,
            graceful_shutdown_unix_signal,
        );
        lemma_effective_value_concat(
            framework,
            pairs_view(extra_env@),
            "LEPTOS_GRACEFUL_SHUTDOWN_UNIX_SIGNAL"@,
        );
    }

    CommandPlan { program, args, current_dir: app_dir.to_owned(), envs }
}

/// Setting the entries of `a` and then those of `b` gives each key the
/// value of its last entry in `b` where `b` has one, and otherwise that of
/// its last entry in `a`.
pub proof fn lemma_effective_value_concat(
    a: Seq<(Seq<char>, Seq<char>)>,
    b: Seq<(Seq<char>, Seq<char>)>,
    key: Seq<char>,
)
    ensures
        effective_value(a + b, key) == match effective_value(b, key) {
            Some(v) => Some(v),
            None => effective_value(a, key),
        },
    decreases b.len(),
{
    if b.len() == 0 {
        assert(a + b =~= a);
    } else {
        assert((a + b).drop_last() =~= a + b.drop_last());
        assert((a + b).last() == b.last());
        lemma_effective_value_concat(a, b.drop_last(), key);
    }
}

/// An environment entry added through the configuration wins over the
/// launcher's own entry for the same key, and among several added entries
/// for one key the last one wins: with the framework entries set first and
/// the added ones after them, the child sees, for every key that the added
/// entries name, the value of the last such entry.
pub proof fn lemma_extra_env_overrides(
    framework: Seq<(Seq<char>, Seq<char>)>,
    extra: Seq<(Seq<char>, Seq<char>)>,
    key: Seq<char>,
)
    requires
        effective_value(extra, key) is Some,
    ensures
        effective_value(framework + extra, key) == effective_value(extra, key),
{
    lemma_effective_value_concat(framework, extra, key);
}

/// The launcher's own entries do not depend on whether the parent sets
/// `RUST_BACKTRACE`, but for the `RUST_BACKTRACE=1` entry added where it does
/// not: whatever the parent sets, the entries are the site address, the
/// reload port, the graceful-shutdown seconds and the configured signal
/// (`SIGTERM` for `Terminate`, `SIGINT` for `Interrupt`), in this order, and
/// a process started with them sees that signal.
pub proof fn lemma_framework_env_layout(
    site_addr: Seq<char>,
    reload_port: u16,
    shutdown_secs: u64,
    signal: UnixGracefulSignal,
)
    ensures
        framework_env(site_addr, reload_port, shutdown_secs, signal, true).len() == 4,
        framework_env(site_addr, reload_port, shutdown_secs, signal, false).len() == 5,
        framework_env(site_addr, reload_port, shutdown_secs, signal, false).take(4)
            == framework_env(site_addr, reload_port, shutdown_secs, signal, true),
        framework_env(site_addr, reload_port, shutdown_secs, signal, false)[4] == (
            "RUST_BACKTRACE"@,
            "1"@,
        ),
        forall|set: bool|
            #![trigger framework_env(site_addr, reload_port, shutdown_secs, signal, set)]
            framework_env(site_addr, reload_port, shutdown_secs, signal, set)[0] == (
                "LEPTOS_SITE_ADDR"@,
                site_addr,
            ) && framework_env(site_addr, reload_port, shutdown_secs, signal, set)[1] == (
                "LEPTOS_RELOAD_PORT"@,
                decimal(reload_port as nat),
            ) && framework_env(site_addr, reload_port, shutdown_secs, signal, set)[2] == (
                "LEPTOS_GRACEFUL_SHUTDOWN_TIMEOUT_SECS"@,
                decimal(shutdown_secs as nat),
            ) && framework_env(site_addr, reload_port, shutdown_secs, signal, set)[3] == (
                "LEPTOS_GRACEFUL_SHUTDOWN_UNIX_SIGNAL"@,
                match signal {
                    UnixGracefulSignal::Terminate => "SIGTERM"@,
                    UnixGracefulSignal::Interrupt => "SIGINT"@,
                },
            ) && effective_value(
                framework_env(site_addr, reload_port, shutdown_secs, signal, set),
                "LEPTOS_GRACEFUL_SHUTDOWN_UNIX_SIGNAL"@,
            ) == Some(
                match signal {
                    UnixGracefulSignal::Terminate => "SIGTERM"@,
                    UnixGracefulSignal::Interrupt => "SIGINT"@,
                },
            ),
{
    reveal_strlit("RUST_BACKTRACE");
    reveal_strlit("LEPTOS_GRACEFUL_SHUTDOWN_UNIX_SIGNAL");
    let when_set = framework_env(site_addr, reload_port, shutdown_secs, signal, true);
    let when_unset = framework_env(site_addr, reload_port, shutdown_secs, signal, false);
    let key = "LEPTOS_GRACEFUL_SHUTDOWN_UNIX_SIGNAL"@;
    assert(when_unset.take(4) =~= when_set);
    assert(when_unset.drop_last() =~= when_set);
    assert(effective_value(when_set, key) == Some(signal.name()));
    assert(when_unset.last().0 != key) by {
        assert(when_unset.last().0.len() != key.len());
    }
    assert(effective_value(when_unset, key) == effective_value(when_set, key));
}

} // verus!
