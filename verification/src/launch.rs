//! The decisions of one app start: resolving ports and URLs, reading the
//! readiness waits, building the failure diagnostics, and deciding whether a
//! failed start is retried.
use vstd::prelude::*;

use crate::config::LeptosTestAppConfig;
use crate::error::{LeptosBrowserTestError, StartupFailureContext};
use crate::ports::{
    answered_by, extends, find_free_port_excluding, lemma_extends_self, is_search_run, new_answers, search_outcome, FailureCause,
    PortSource,
};
use crate::site::{base_url, format_base_url, loopback_addr, loopback_site_addr};
use crate::startup::{rendered_tail, StartupLogs};
use crate::text::{
    char_codes, chars_of, contains_ignoring_ascii_case, contains_ignoring_case, lower_code,
    lowered_codes, occurs_at,
};

verus! {

/// How often `cargo leptos` is restarted at most, after the first start,
/// when a start fails on a port-bind collision and a port was chosen
/// automatically.
pub const MAX_PORT_COLLISION_RETRIES: u32 = 3;

/// Whether captured output reports a port-bind collision: it contains,
/// ignoring ASCII case, `address already in use` (Linux, macOS) or
/// `only one usage of each socket address` (Windows).
pub open spec fn indicates_port_collision(text: Seq<char>) -> bool {
    contains_ignoring_ascii_case(text, "address already in use"@)
        || contains_ignoring_ascii_case(text, "only one usage of each socket address"@)
}

/// Whether captured output reports a port-bind collision.
pub fn stderr_indicates_port_collision(text: &str) -> (r: bool)
    ensures
        r == indicates_port_collision(text@),
        r <==> ((exists|i: int| phrase_at(text@, "address already in use"@, i)) || (exists|i: int|
            phrase_at(text@, "only one usage of each socket address"@, i))),
{
    proof {
        lemma_collision_phrase_anywhere(text@);
    }
    let hay = chars_of(text);
    if contains_ignoring_case(&hay, &chars_of("address already in use")) {
        return true;
    }
    contains_ignoring_case(&hay, &chars_of("only one usage of each socket address"))
}

/// `c` is `d` after ASCII lowercasing: an uppercase ASCII letter is 32 code
/// points below its lowercase letter, any other character stays itself.
pub open spec fn lowercases_to(c: char, d: char) -> bool {
    let u = c as u32;
    if 65 <= u && u <= 90 {
        u + 32 == d as u32
    } else {
        u == d as u32
    }
}

/// `phrase` stands in `t` at position `i` once `t` is ASCII-lowercased.
pub open spec fn phrase_at(t: Seq<char>, phrase: Seq<char>, i: int) -> bool {
    &&& 0 <= i
    &&& i + phrase.len() <= t.len()
    &&& forall|j: int| 0 <= j < phrase.len() ==> lowercases_to(#[trigger] t[i + j], phrase[j])
}

proof fn lemma_phrase_at_iff_occurs(t: Seq<char>, phrase: Seq<char>, i: int)
    ensures
        phrase_at(t, phrase, i) <==> occurs_at(lowered_codes(t), char_codes(phrase), i),
{
    let lt = lowered_codes(t);
    let cp = char_codes(phrase);
    if phrase_at(t, phrase, i) {
        assert(lt.subrange(i, i + cp.len()) =~= cp) by {
            assert forall|j: int| 0 <= j < cp.len() implies lt.subrange(i, i + cp.len())[j] == cp[j] by {
                assert(lowercases_to(t[i + j], phrase[j]));
            }
        }
    }
    if occurs_at(lt, cp, i) {
        assert forall|j: int| 0 <= j < phrase.len() implies lowercases_to(#[trigger] t[i + j], phrase[j]) by {
            assert(lt.subrange(i, i + cp.len())[j] == cp[j]);
            assert(lt[i + j] == lower_code(t[i + j]));
        }
    }
}

/// A captured text reports a port-bind collision exactly when, ignoring
/// ASCII case, `address already in use` or `only one usage of each socket
/// address` stands in it at some position, however far into the text.
pub proof fn lemma_collision_phrase_anywhere(t: Seq<char>)
    ensures
        indicates_port_collision(t) <==> ((exists|i: int| phrase_at(t, "address already in use"@, i))
            || (exists|i: int| phrase_at(t, "only one usage of each socket address"@, i))),
{
    let p1 = "address already in use"@;
    let p2 = "only one usage of each socket address"@;
    lemma_phrase_anywhere_iff_contains(t, p1);
    lemma_phrase_anywhere_iff_contains(t, p2);
}

proof fn lemma_phrase_anywhere_iff_contains(t: Seq<char>, phrase: Seq<char>)
    ensures
        (exists|i: int| phrase_at(t, phrase, i)) <==> contains_ignoring_ascii_case(t, phrase),
{
    if exists|i: int| phrase_at(t, phrase, i) {
        let i = choose|i: int| phrase_at(t, phrase, i);
        lemma_phrase_at_iff_occurs(t, phrase, i);
        assert(occurs_at(lowered_codes(t), char_codes(phrase), i));
    }
    if contains_ignoring_ascii_case(t, phrase) {
        let i = choose|i: int| occurs_at(lowered_codes(t), char_codes(phrase), i);
        lemma_phrase_at_iff_occurs(t, phrase, i);
        assert(phrase_at(t, phrase, i));
    }
}

/// Text written before a collision report never hides it: if `t` reports a
/// collision, so does `p + t`, and so does `t + q`.
pub proof fn lemma_collision_survives_surrounding_text(p: Seq<char>, t: Seq<char>, q: Seq<char>)
    ensures
        indicates_port_collision(t) ==> indicates_port_collision(p + t),
        indicates_port_collision(t) ==> indicates_port_collision(t + q),
{
    let p1 = "address already in use"@;
    let p2 = "only one usage of each socket address"@;
    lemma_collision_phrase_anywhere(t);
    lemma_collision_phrase_anywhere(p + t);
    lemma_collision_phrase_anywhere(t + q);
    if indicates_port_collision(t) {
        if exists|i: int| phrase_at(t, p1, i) {
            let i = choose|i: int| phrase_at(t, p1, i);
            assert forall|j: int| 0 <= j < p1.len() implies lowercases_to(#[trigger] (p + t)[p.len() + i + j], p1[j]) by {
                assert((p + t)[p.len() + i + j] == t[i + j]);
            }
            assert(phrase_at(p + t, p1, p.len() + i));
            assert forall|j: int| 0 <= j < p1.len() implies lowercases_to(#[trigger] (t + q)[i + j], p1[j]) by {
                assert((t + q)[i + j] == t[i + j]);
            }
            assert(phrase_at(t + q, p1, i));
        } else {
            let i = choose|i: int| phrase_at(t, p2, i);
            assert forall|j: int| 0 <= j < p2.len() implies lowercases_to(#[trigger] (p + t)[p.len() + i + j], p2[j]) by {
                assert((p + t)[p.len() + i + j] == t[i + j]);
            }
            assert(phrase_at(p + t, p2, p.len() + i));
            assert forall|j: int| 0 <= j < p2.len() implies lowercases_to(#[trigger] (t + q)[i + j], p2[j]) by {
                assert((t + q)[i + j] == t[i + j]);
            }
            assert(phrase_at(t + q, p2, i));
        }
    }
}

/// A startup failure is a port collision when either captured tail reports
/// one, whatever the other tail holds; when neither does, or when the error
/// carries no captured output, it is not.
pub proof fn lemma_collision_from_either_tail(err: LeptosBrowserTestError)
    ensures
        err.startup_context() matches Some(ctx) ==> (indicates_port_collision(ctx.stdout_tail@)
            ==> is_collision(err)),
        err.startup_context() matches Some(ctx) ==> (indicates_port_collision(ctx.stderr_tail@)
            ==> is_collision(err)),
        err.startup_context() matches Some(ctx) ==> ((!indicates_port_collision(ctx.stdout_tail@)
            && !indicates_port_collision(ctx.stderr_tail@)) ==> !is_collision(err)),
        err.startup_context() is None ==> !is_collision(err),
{
}

/// Whether an error is a startup failure whose captured stderr or stdout
/// reports a port-bind collision.
pub open spec fn is_collision(err: LeptosBrowserTestError) -> bool {
    match err.startup_context() {
        Some(ctx) => indicates_port_collision(ctx.stderr_tail@)
            || indicates_port_collision(ctx.stdout_tail@),
        None => false,
    }
}

/// Whether a start failed because a port was already taken.
pub fn is_port_collision(err: &LeptosBrowserTestError) -> (r: bool)
    ensures
        r == is_collision(*err),
        err.startup_context() matches Some(ctx) ==> (indicates_port_collision(ctx.stdout_tail@)
            ==> r),
        err.startup_context() matches Some(ctx) ==> (indicates_port_collision(ctx.stderr_tail@)
            ==> r),
        err.startup_context() matches Some(ctx) ==> ((!indicates_port_collision(ctx.stdout_tail@)
            && !indicates_port_collision(ctx.stderr_tail@)) ==> !r),
        err.startup_context() is None ==> !r,
{
    proof {
        lemma_collision_from_either_tail(*err);
    }
    match err {
        LeptosBrowserTestError::StartupTimedOut { ctx, .. }
        | LeptosBrowserTestError::StartupStdoutClosed(ctx)
        | LeptosBrowserTestError::StreamRead(ctx) => {
            stderr_indicates_port_collision(ctx.stderr_tail.as_str())
                || stderr_indicates_port_collision(ctx.stdout_tail.as_str())
        },
        _ => false,
    }
}

/// `ctx` describes a failure of the app `app_name` while it waited for
/// `expected_line`, with the tails of `logs`.
pub open spec fn describes_failure(
    ctx: StartupFailureContext,
    app_name: Seq<char>,
    expected_line: Seq<char>,
    logs: StartupLogs,
) -> bool {
    &&& ctx.app_name@ == app_name
    &&& ctx.expected_line@ == expected_line
    &&& ctx.stdout_tail@ == rendered_tail(logs.stdout@)
    &&& ctx.stderr_tail@ == rendered_tail(logs.stderr@)
}

/// The diagnostics of a failed start: app name, awaited line, and the
/// rendered stdout and stderr tails.
pub fn startup_failure_context(
    app_name: &str,
    expected_line: &str,
    logs: &StartupLogs,
) -> (ctx: StartupFailureContext)
    ensures
        describes_failure(ctx, app_name@, expected_line@, *logs),
{
    StartupFailureContext {
        app_name: app_name.to_owned(),
        expected_line: expected_line.to_owned(),
        stdout_tail: logs.stdout_tail(),
        stderr_tail: logs.stderr_tail(),
    }
}

/// How one wait for the startup line on one output stream ended.
#[derive(Debug, Clone, Copy, PartialEq, Eq, Structural)]
pub enum LineWait {
    /// A line containing the awaited fragment was seen.
    Matched,
    /// The stream ended first.
    StreamClosed,
    /// The timeout elapsed first.
    Timeout,
}

/// Combines the waits on stdout and stderr, each `None` while it is still
/// running: the app is ready as soon as either stream matched; the streams
/// count as closed only when both closed; once both waits ended otherwise,
/// the start timed out. `None` means: keep waiting.
pub fn combine_line_waits(stdout: Option<LineWait>, stderr: Option<LineWait>) -> (r: Option<LineWait>)
    ensures
        r == combined_lines(stdout, stderr),
        (r == Some(LineWait::Matched)) <==> (stdout == Some(LineWait::Matched) || stderr == Some(
            LineWait::Matched,
        )),
        (r == Some(LineWait::StreamClosed)) <==> (stdout == Some(LineWait::StreamClosed) && stderr
            == Some(LineWait::StreamClosed)),
        (r == Some(LineWait::Timeout)) <==> (stdout is Some && stderr is Some && stdout != Some(
            LineWait::Matched,
        ) && stderr != Some(LineWait::Matched) && !(stdout == Some(LineWait::StreamClosed)
            && stderr == Some(LineWait::StreamClosed))),
        (r is None) <==> ((stdout is None || stderr is None) && stdout != Some(LineWait::Matched)
            && stderr != Some(LineWait::Matched)),
{
    if stdout == Some(LineWait::Matched) || stderr == Some(LineWait::Matched) {
        return Some(LineWait::Matched);
    }
    match (stdout, stderr) {
        (Some(LineWait::StreamClosed), Some(LineWait::StreamClosed)) => Some(LineWait::StreamClosed),
        (Some(_), Some(_)) => Some(LineWait::Timeout),
        _ => None,
    }
}

/// The combination of the two line waits: matched when either matched;
/// closed when both closed; timed out when both ended otherwise; `None`
/// while one is still running and neither matched.
pub open spec fn combined_lines(stdout: Option<LineWait>, stderr: Option<LineWait>) -> Option<LineWait> {
    if stdout == Some(LineWait::Matched) || stderr == Some(LineWait::Matched) {
        Some(LineWait::Matched)
    } else if stdout is Some && stderr is Some {
        if stdout == Some(LineWait::StreamClosed) && stderr == Some(LineWait::StreamClosed) {
            Some(LineWait::StreamClosed)
        } else {
            Some(LineWait::Timeout)
        }
    } else {
        None
    }
}

/// How waiting for the app to become ready ended.
#[derive(Debug, Clone, Copy, PartialEq, Eq, Structural)]
pub enum StartupWait {
    /// Both waits ended as combined.
    Line(LineWait),
    /// Reading an output stream failed.
    ReadFailed,
}

/// Combines the waits on stdout and stderr as they end, each `None` while
/// it is still running: a failed read ends the wait at once; otherwise the
/// line waits combine as `combine_line_waits` says. `None` means: keep
/// waiting.
pub fn combine_stream_waits(stdout: Option<StartupWait>, stderr: Option<StartupWait>) -> (r: Option<StartupWait>)
    ensures
        (stdout == Some(StartupWait::ReadFailed) || stderr == Some(StartupWait::ReadFailed)) ==> r
            == Some(StartupWait::ReadFailed),
        (stdout != Some(StartupWait::ReadFailed) && stderr != Some(StartupWait::ReadFailed)) ==> r
            == match combined_lines(line_of(stdout), line_of(stderr)) {
            Some(w) => Some(StartupWait::Line(w)),
            None => None,
        },
{
    if stdout == Some(StartupWait::ReadFailed) || stderr == Some(StartupWait::ReadFailed) {
        return Some(StartupWait::ReadFailed);
    }
    let out = match stdout {
        Some(StartupWait::Line(w)) => Some(w),
        _ => None,
    };
    let err = match stderr {
        Some(StartupWait::Line(w)) => Some(w),
        _ => None,
    };
    match combine_line_waits(out, err) {
        Some(w) => Some(StartupWait::Line(w)),
        None => None,
    }
}

/// The line wait inside a stream wait, where there is one.
pub open spec fn line_of(w: Option<StartupWait>) -> Option<LineWait> {
    match w {
        Some(StartupWait::Line(l)) => Some(l),
        _ => None,
    }
}

/// The result of a start whose readiness wait ended with `wait`: success
/// when the startup line was seen, else the matching error with the
/// failure diagnostics.
pub fn startup_outcome(
    wait: StartupWait,
    config: &LeptosTestAppConfig,
    startup_line: &str,
    logs: &StartupLogs,
) -> (r: Result<(), LeptosBrowserTestError>)
    ensures
        (r is Ok) <==> (wait == StartupWait::Line(LineWait::Matched)),
        wait == StartupWait::Line(LineWait::StreamClosed) ==> (r matches Err(
            LeptosBrowserTestError::StartupStdoutClosed(ctx),
        ) && describes_failure(ctx, config.app_name@, startup_line@, *logs)),
        wait == StartupWait::Line(LineWait::Timeout) ==> (r matches Err(
            LeptosBrowserTestError::StartupTimedOut { ctx, timeout, reason },
        ) && describes_failure(ctx, config.app_name@, startup_line@, *logs) && timeout
            == config.startup_timeout && reason@ == config.startup_timeout_reason@),
        wait == StartupWait::ReadFailed ==> (r matches Err(LeptosBrowserTestError::StreamRead(ctx))
            && describes_failure(ctx, config.app_name@, startup_line@, *logs)),
{
    match wait {
        StartupWait::Line(LineWait::Matched) => Ok(()),
        StartupWait::Line(LineWait::StreamClosed) => Err(
            LeptosBrowserTestError::StartupStdoutClosed(
                startup_failure_context(config.app_name.as_str(), startup_line, logs),
            ),
        ),
        StartupWait::Line(LineWait::Timeout) => Err(
            LeptosBrowserTestError::StartupTimedOut {
                ctx: startup_failure_context(config.app_name.as_str(), startup_line, logs),
                timeout: config.startup_timeout,
                reason: config.startup_timeout_reason.clone(),
            },
        ),
        StartupWait::ReadFailed => Err(
            LeptosBrowserTestError::StreamRead(
                startup_failure_context(config.app_name.as_str(), startup_line, logs),
            ),
        ),
    }
}


/// The launch settings of one start, after directory resolution, port
/// selection and URL derivation.
#[derive(Debug)]
pub struct RuntimeConfig {
    /// The resolved app directory.
    pub app_dir: String,
    /// The site address `cargo leptos` binds to.
    pub site_addr: String,
    /// The port of the site address.
    pub site_port: u16,
    /// The reload port.
    pub reload_port: u16,
    /// The browser-facing base URL.
    pub base_url: String,
    /// The output fragment that marks the app as ready.
    pub startup_line: String,
}

/// A failed resolution: the error to report and, where there is one, the
/// failure underneath it.
#[derive(Debug)]
pub struct ResolveFailure<E> {
    /// The error to report.
    pub context: LeptosBrowserTestError,
    /// The failure underneath, where there is one.
    pub cause: Option<FailureCause<E>>,
}

/// The startup line awaited by default: `listening on <base url>`.
pub open spec fn default_startup_line(base_url: Seq<char>) -> Seq<char> {
    "listening on "@ + base_url
}

/// `err` is `ResolveAppDir` for the configured app.
pub open spec fn resolve_app_dir_error(err: LeptosBrowserTestError, config: LeptosTestAppConfig) -> bool {
    err matches LeptosBrowserTestError::ResolveAppDir { app_name, app_dir } && app_name@
        == config.app_name@ && app_dir@ == config.app_dir@
}

/// `err` is `InvalidSiteAddr` for the configured app and address.
pub open spec fn invalid_site_addr_error(err: LeptosBrowserTestError, config: LeptosTestAppConfig) -> bool {
    &&& err matches LeptosBrowserTestError::InvalidSiteAddr { app_name, site_addr }
    &&& app_name@ == config.app_name@
    &&& config.site_addr matches Some(addr)
    &&& site_addr@ == addr@
}

/// `err` is `FindFreeSitePort` for the configured app.
pub open spec fn site_port_error(err: LeptosBrowserTestError, config: LeptosTestAppConfig) -> bool {
    err matches LeptosBrowserTestError::FindFreeSitePort { app_name } && app_name@
        == config.app_name@
}

/// `err` is `FindFreeReloadPort` for the configured app.
pub open spec fn reload_port_error(err: LeptosBrowserTestError, config: LeptosTestAppConfig) -> bool {
    err matches LeptosBrowserTestError::FindFreeReloadPort { app_name } && app_name@
        == config.app_name@
}

fn app_name_of(config: &LeptosTestAppConfig) -> (s: String)
    ensures
        s@ == config.app_name@,
{
    config.app_name.clone()
}

/// How many allocator answers the site address takes: one when it is
/// chosen automatically, none when it is configured.
pub open spec fn site_answer_count(config: LeptosTestAppConfig) -> int {
    if config.site_addr is None {
        1
    } else {
        0
    }
}

/// Resolution gets past the directory, the configured address and the
/// site port, given the allocator answers `used` of this resolution.
pub open spec fn site_resolved<E>(
    canonical_app_dir: Result<String, E>,
    config: LeptosTestAppConfig,
    configured_site_port: Option<u16>,
    used: Seq<Result<u16, E>>,
) -> bool {
    &&& canonical_app_dir is Ok
    &&& config.site_addr is Some ==> configured_site_port is Some
    &&& config.site_addr is None ==> (used.len() >= 1 && used[0] is Ok)
}

/// The site port: the parsed configured one, or the first allocator answer.
pub open spec fn site_port_of<E>(
    config: LeptosTestAppConfig,
    configured_site_port: Option<u16>,
    used: Seq<Result<u16, E>>,
) -> u16 {
    if config.site_addr is Some {
        configured_site_port->0
    } else {
        used[0]->Ok_0
    }
}

/// The allocator answers asked for the reload port.
pub open spec fn reload_answers<E>(config: LeptosTestAppConfig, used: Seq<Result<u16, E>>) -> Seq<Result<u16, E>> {
    used.subrange(site_answer_count(config), used.len() as int)
}

/// Resolves the launch settings of one start. `canonical_app_dir` is the
/// outcome of resolving the configured directory; `configured_site_port` is
/// the port that parsing the configured site address as `host:port` gave,
/// `None` where it did not parse; `allocator` hands out free ports and
/// records each answer. A configured site address or reload port is used as
/// it is. Otherwise the site port is the allocator's next answer, and the
/// reload port is found by `find_free_port_excluding` with the site port
/// excluded.
pub fn resolve_runtime_config<E, F: Fn() -> Result<u16, E>>(
    config: &LeptosTestAppConfig,
    canonical_app_dir: Result<String, E>,
    configured_site_port: Option<u16>,
    allocator: &mut PortSource<E, F>,
) -> (r: Result<RuntimeConfig, ResolveFailure<E>>)
    requires
        old(allocator).allocator().requires(()),
    ensures
        final(allocator).allocator() == old(allocator).allocator(),
        extends(old(allocator).answers(), final(allocator).answers()),
        answered_by(
            old(allocator).allocator(),
            new_answers(old(allocator).answers(), final(allocator).answers()),
        ),
        canonical_app_dir matches Err(e) ==> (r matches Err(f) && resolve_app_dir_error(
            f.context,
            *config,
        ) && f.cause == Some(FailureCause::Io(e)) && final(allocator).answers() == old(
            allocator,
        ).answers()),
        (canonical_app_dir is Ok && config.site_addr is Some && configured_site_port is None) ==> (
        r matches Err(f) && invalid_site_addr_error(f.context, *config) && f.cause is None
            && final(allocator).answers() == old(allocator).answers()),
        ({
            let used = new_answers(old(allocator).answers(), final(allocator).answers());
            (canonical_app_dir is Ok && config.site_addr is None) ==> {
                &&& used.len() >= 1
                &&& used[0] matches Err(e) ==> (r matches Err(f) && site_port_error(
                    f.context,
                    *config,
                ) && f.cause == Some(FailureCause::Io(e)) && used.len() == 1)
            }
        }),
        ({
            let used = new_answers(old(allocator).answers(), final(allocator).answers());
            let sp = site_port_of(*config, configured_site_port, used);
            let run = reload_answers(*config, used);
            site_resolved(canonical_app_dir, *config, configured_site_port, used) ==> {
                &&& config.reload_port matches Some(p) ==> (r matches Ok(rc) && rc.reload_port == p
                    && run.len() == 0)
                &&& config.reload_port is None ==> {
                    &&& is_search_run(Some(sp), run)
                    &&& match search_outcome(Some(sp), run.last()) {
                        Ok(p) => r matches Ok(rc) && rc.reload_port == p,
                        Err(c) => r matches Err(f) && reload_port_error(f.context, *config)
                            && f.cause == Some(c),
                    }
                }
            }
        }),
        r matches Ok(rc) ==> ({
            let used = new_answers(old(allocator).answers(), final(allocator).answers());
            &&& site_resolved(canonical_app_dir, *config, configured_site_port, used)
            &&& canonical_app_dir matches Ok(dir) && rc.app_dir@ == dir@
            &&& rc.site_port == site_port_of(*config, configured_site_port, used)
            &&& rc.site_addr@ == match config.site_addr {
                Some(addr) => addr@,
                None => loopback_site_addr(rc.site_port),
            }
            &&& rc.base_url@ == base_url(config.site_scheme, rc.site_addr@)
            &&& rc.startup_line@ == match config.startup_line {
                Some(line) => line@,
                None => default_startup_line(rc.base_url@),
            }
        }),
{
    let ghost before = allocator.answers();
    proof {
        lemma_extends_self(before);
    }
    let app_dir = match canonical_app_dir {
        Ok(dir) => dir,
        Err(e) => {
            return Err(
                ResolveFailure {
                    context: LeptosBrowserTestError::ResolveAppDir {
                        app_name: app_name_of(config),
                        app_dir: config.app_dir.clone(),
                    },
                    cause: Some(FailureCause::Io(e)),
                },
            );
        },
    };

    let (site_addr, site_port) = match &config.site_addr {
        Some(addr) => match configured_site_port {
            Some(port) => (addr.clone(), port),
            None => {
                return Err(
                    ResolveFailure {
                        context: LeptosBrowserTestError::InvalidSiteAddr {
                            app_name: app_name_of(config),
                            site_addr: addr.clone(),
                        },
                        cause: None,
                    },
                );
            },
        },
        None => {
            let answer = allocator.next();
            proof {
                assert(new_answers(before, allocator.answers()) =~= seq![answer]);
                assert(allocator.answers().subrange(0, before.len() as int) =~= before);
                assert(answered_by(allocator.allocator(), new_answers(before, allocator.answers())));
            }
            match answer {
                Ok(port) => (loopback_addr(port), port),
                Err(e) => {
                    return Err(
                        ResolveFailure {
                            context: LeptosBrowserTestError::FindFreeSitePort {
                                app_name: app_name_of(config),
                            },
                            cause: Some(FailureCause::Io(e)),
                        },
                    );
                },
            }
        },
    };
    let ghost mid = allocator.answers();
    assert(new_answers(before, mid).len() == site_answer_count(*config));
    assert(site_port == site_port_of(*config, configured_site_port, new_answers(before, mid)));

    let reload_port = match config.reload_port {
        Some(port) => port,
        None => {
            let found = find_free_port_excluding(Some(site_port), allocator);
            proof {
                let after = allocator.answers();
                assert(after.subrange(0, before.len() as int) =~= before) by {
                    assert(after.subrange(0, mid.len() as int) == mid);
                    assert(after.subrange(0, before.len() as int) =~= mid.subrange(
                        0,
                        before.len() as int,
                    ));
                }
                assert(reload_answers(*config, new_answers(before, after)) =~= new_answers(mid, after));
                if config.site_addr is None {
                    assert(new_answers(before, after)[0] == new_answers(before, mid)[0]);
                }
                assert(new_answers(before, after) =~= new_answers(before, mid) + new_answers(mid, after));
                assert forall|i: int| 0 <= i < new_answers(before, after).len() implies
                    #[trigger] allocator.allocator().ensures((), new_answers(before, after)[i]) by {
                    if i >= new_answers(before, mid).len() {
                        assert(new_answers(before, after)[i] == new_answers(mid, after)[i - new_answers(before, mid).len()]);
                    }
                }
            }
            match found {
                Ok(port) => port,
                Err(cause) => {
                    return Err(
                        ResolveFailure {
                            context: LeptosBrowserTestError::FindFreeReloadPort {
                                app_name: app_name_of(config),
                            },
                            cause: Some(cause),
                        },
                    );
                },
            }
        },
    };
    proof {
        let used = new_answers(before, allocator.answers());
        if config.reload_port is Some {
            assert(allocator.answers() == mid);
            assert(reload_answers(*config, used).len() == 0);
        }
    }

    let base_url = format_base_url(config.site_scheme, site_addr.as_str());
    let startup_line = match &config.startup_line {
        Some(line) => line.clone(),
        None => {
            let mut line = "listening on ".to_owned();
            line.append(base_url.as_str());
            line
        },
    };

    Ok(RuntimeConfig { app_dir, site_addr, site_port, reload_port, base_url, startup_line })
}

/// How many starts are made at most: one plus `MAX_PORT_COLLISION_RETRIES`
/// when a port is chosen automatically, one when both the site address and
/// the reload port are fixed.
pub open spec fn start_attempts(config: LeptosTestAppConfig) -> u32 {
    if config.site_addr is None || config.reload_port is None {
        (MAX_PORT_COLLISION_RETRIES + 1) as u32
    } else {
        1
    }
}

/// Whether a start that failed with `err` at attempt `attempt` (counted from
/// one) is followed by another: only on a port collision, and only while
/// attempts are left.
pub open spec fn retries(attempt: u32, max_attempts: u32, err: LeptosBrowserTestError) -> bool {
    attempt < max_attempts && is_collision(err)
}

/// The count of starts made so far for one configuration, and how many are
/// allowed.
#[derive(Debug)]
pub struct StartAttempts {
    attempt: u32,
    max_attempts: u32,
}

impl View for StartAttempts {
    /// The number of the current start (from one) and the allowed number.
    type V = (u32, u32);

    closed spec fn view(&self) -> (u32, u32) {
        (self.attempt, self.max_attempts)
    }
}

impl StartAttempts {
    #[verifier::type_invariant]
    closed spec fn wf(self) -> bool {
        1 <= self.attempt <= self.max_attempts <= MAX_PORT_COLLISION_RETRIES + 1
    }

    /// The count before the first start of `config`.
    pub fn new(config: &LeptosTestAppConfig) -> (s: StartAttempts)
        ensures
            s@ == (1u32, start_attempts(*config)),
    {
        let max_attempts = if config.site_addr.is_none() || config.reload_port.is_none() {
            MAX_PORT_COLLISION_RETRIES + 1
        } else {
            1
        };
        StartAttempts { attempt: 1, max_attempts }
    }

    /// The number of the current start, from one.
    pub fn attempt(&self) -> (n: u32)
        ensures
            n == self@.0,
            1 <= n <= self@.1 <= MAX_PORT_COLLISION_RETRIES + 1,
    {
        proof {
            use_type_invariant(self);
        }
        self.attempt
    }

    /// How many starts are allowed.
    pub fn max_attempts(&self) -> (n: u32)
        ensures
            n == self@.1,
    {
        self.max_attempts
    }

    /// Decides, after the current start failed with `err`, whether to start
    /// again; if so, the count moves on to the next start.
    pub fn retry_after(&mut self, err: &LeptosBrowserTestError) -> (retry: bool)
        ensures
            retry == retries(old(self)@.0, old(self)@.1, *err),
            final(self)@ == if retry {
                ((old(self)@.0 + 1) as u32, old(self)@.1)
            } else {
                old(self)@
            },
    {
        proof {
            use_type_invariant(&*self);
        }
        if self.attempt < self.max_attempts && is_port_collision(err) {
            self.attempt = self.attempt + 1;
            true
        } else {
            false
        }
    }
}

/// A start with both the site address and the reload port fixed is never
/// repeated; with a port chosen automatically, a start that collided on a
/// port is repeated after each of the first `MAX_PORT_COLLISION_RETRIES`
/// attempts and not after a later one; no other failure is retried.
pub proof fn lemma_retry_bounds(config: LeptosTestAppConfig, attempt: u32, err: LeptosBrowserTestError)
    requires
        attempt >= 1,
    ensures
        retries(attempt, start_attempts(config), err) ==> attempt <= MAX_PORT_COLLISION_RETRIES,
        (config.site_addr is Some && config.reload_port is Some) ==> !retries(
            attempt,
            start_attempts(config),
            err,
        ),
        ((config.site_addr is None || config.reload_port is None) && is_collision(err) && attempt
            <= MAX_PORT_COLLISION_RETRIES) ==> retries(attempt, start_attempts(config), err),
        !is_collision(err) ==> !retries(attempt, start_attempts(config), err),
{
}

} // verus!
