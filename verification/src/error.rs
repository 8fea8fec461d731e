//! The errors that starting the app can end in, and their messages.
use vstd::prelude::*;

use crate::cargo_leptos::CargoLeptosMode;
use crate::text::{debug_path, debug_quoted, path_debug, str_debug};
use crate::timeout::{duration_text, Timeout};

verus! {

/// Diagnostic context attached to startup-failure variants: the app name,
/// the stdout fragment that was awaited, and the most recent stdout/stderr
/// lines captured before the failure.
#[derive(Debug, PartialEq, Eq)]
pub struct StartupFailureContext {
    /// The descriptive app name.
    pub app_name: String,
    /// The expected startup line fragment.
    pub expected_line: String,
    /// Recent stdout lines.
    pub stdout_tail: String,
    /// Recent stderr lines.
    pub stderr_tail: String,
}

/// Error contexts reported by Leptos test app startup operations.
#[derive(Debug, PartialEq, Eq)]
pub enum LeptosBrowserTestError {
    /// The configured test app directory could not be resolved.
    ResolveAppDir {
        /// The descriptive app name.
        app_name: String,
        /// The configured app directory.
        app_dir: String,
    },
    /// The `cargo leptos` process could not be spawned.
    SpawnCargoLeptos {
        /// The descriptive app name.
        app_name: String,
        /// The selected `cargo leptos` mode.
        mode: CargoLeptosMode,
    },
    /// A free site port could not be selected.
    FindFreeSitePort {
        /// The descriptive app name.
        app_name: String,
    },
    /// A free reload port could not be selected.
    FindFreeReloadPort {
        /// The descriptive app name.
        app_name: String,
    },
    /// The app's output closed before startup completed.
    StartupStdoutClosed(StartupFailureContext),
    /// The app did not produce the expected startup line before the timeout.
    StartupTimedOut {
        /// Diagnostic context (app name, expected line, captured tails).
        ctx: StartupFailureContext,
        /// The configured startup timeout.
        timeout: Timeout,
        /// The reason given for this particular timeout.
        reason: String,
    },
    /// Reading the app's output failed before the startup line was observed.
    StreamRead(StartupFailureContext),
    /// The configured site address is not a `host:port` socket address.
    InvalidSiteAddr {
        /// The descriptive app name.
        app_name: String,
        /// The supplied site address that failed to parse.
        site_addr: String,
    },
}

/// The closing part of every startup-failure message: the two captured tails.
pub open spec fn tails_text(ctx: StartupFailureContext) -> Seq<char> {
    ".\n\nRecent stdout:\n"@ + ctx.stdout_tail@ + "\n\nRecent stderr:\n"@ + ctx.stderr_tail@
}

impl LeptosBrowserTestError {
    /// The field whose `Debug` rendering the message quotes: the app
    /// directory, the expected line or the site address; empty for the
    /// variants that quote nothing.
    pub open spec fn quoted_field(&self) -> Seq<char> {
        match self {
            LeptosBrowserTestError::ResolveAppDir { app_dir, .. } => app_dir@,
            LeptosBrowserTestError::StartupStdoutClosed(ctx) => ctx.expected_line@,
            LeptosBrowserTestError::StartupTimedOut { ctx, .. } => ctx.expected_line@,
            LeptosBrowserTestError::StreamRead(ctx) => ctx.expected_line@,
            LeptosBrowserTestError::InvalidSiteAddr { site_addr, .. } => site_addr@,
            _ => Seq::empty(),
        }
    }

    /// The rendered duration the message mentions: that of the timeout for
    /// `StartupTimedOut`, empty otherwise.
    pub open spec fn timeout_text(&self) -> Seq<char> {
        match self {
            LeptosBrowserTestError::StartupTimedOut { timeout, .. } => duration_text(timeout@.0, timeout@.1),
            _ => Seq::empty(),
        }
    }

    /// The message of the error, given the quoted rendering `quoted` of its
    /// quoted field and the rendered duration `duration`.
    pub open spec fn message_with(&self, quoted: Seq<char>, duration: Seq<char>) -> Seq<char> {
        match self {
            LeptosBrowserTestError::ResolveAppDir { app_name, .. } =>
                "failed to resolve "@ + app_name@ + " directory "@ + quoted,
            LeptosBrowserTestError::SpawnCargoLeptos { app_name, mode } =>
                "failed to spawn `cargo leptos "@ + mode.arg() + "` for "@ + app_name@,
            LeptosBrowserTestError::FindFreeSitePort { app_name } =>
                "failed to find a free site port for "@ + app_name@,
            LeptosBrowserTestError::FindFreeReloadPort { app_name } =>
                "failed to find a free reload port for "@ + app_name@,
            LeptosBrowserTestError::StartupStdoutClosed(ctx) =>
                ctx.app_name@ + " stdout closed before startup completed. Expected stdout to contain "@
                    + quoted + tails_text(*ctx),
            LeptosBrowserTestError::StartupTimedOut { ctx, reason, .. } =>
                ctx.app_name@ + " did not start within "@ + duration + " ("@ + reason@
                    + "); expected stdout to contain "@ + quoted + tails_text(*ctx),
            LeptosBrowserTestError::StreamRead(ctx) =>
                ctx.app_name@ + " failed to read stdout while waiting for "@ + quoted + tails_text(
                    *ctx,
                ),
            LeptosBrowserTestError::InvalidSiteAddr { app_name, .. } =>
                "invalid site_addr "@ + quoted + " for "@ + app_name@ + ": expected `host:port`"@,
        }
    }

    /// The quoted rendering of the quoted field: the app directory rendered
    /// as a path, every other field rendered as a string.
    pub open spec fn quoted_text(&self) -> Seq<char> {
        match self {
            LeptosBrowserTestError::ResolveAppDir { app_dir, .. } => path_debug(app_dir@),
            _ => str_debug(self.quoted_field()),
        }
    }

    /// The human-readable message of the error.
    pub open spec fn message(&self) -> Seq<char> {
        self.message_with(self.quoted_text(), self.timeout_text())
    }

    fn quoted_source(&self) -> (s: &str)
        ensures
            s@ == self.quoted_field(),
    {
        match self {
            LeptosBrowserTestError::ResolveAppDir { app_dir, .. } => app_dir.as_str(),
            LeptosBrowserTestError::StartupStdoutClosed(ctx) => ctx.expected_line.as_str(),
            LeptosBrowserTestError::StartupTimedOut { ctx, .. } => ctx.expected_line.as_str(),
            LeptosBrowserTestError::StreamRead(ctx) => ctx.expected_line.as_str(),
            LeptosBrowserTestError::InvalidSiteAddr { site_addr, .. } => site_addr.as_str(),
            _ => {
                proof {
                    reveal_strlit("");
                }
                ""
            },
        }
    }

    /// The human-readable message of the error.
    pub fn to_string(&self) -> (r: String)
        ensures
            r@ == self.message(),
    {
        let quoted = match self {
            LeptosBrowserTestError::ResolveAppDir { app_dir, .. } => debug_path(app_dir.as_str()),
            _ => debug_quoted(self.quoted_source()),
        };
        let duration = match self {
            LeptosBrowserTestError::StartupTimedOut { timeout, .. } => timeout.debug_string(),
            _ => String::new(),
        };
        self.compose_message(quoted.as_str(), duration.as_str())
    }

    /// The message of the error, with `quoted` standing for the quoted
    /// rendering of its quoted field and `duration` for the rendered
    /// timeout.
    pub fn compose_message(&self, quoted: &str, duration: &str) -> (r: String)
        ensures
            r@ == self.message_with(quoted@, duration@),
    {
        match self {
            LeptosBrowserTestError::ResolveAppDir { app_name, .. } => {
                let mut out = "failed to resolve ".to_owned();
                out.append(app_name.as_str());
                out.append(" directory ");
                out.append(quoted);
                out
            },
            LeptosBrowserTestError::SpawnCargoLeptos { app_name, mode } => {
                let mut out = "failed to spawn `cargo leptos ".to_owned();
                out.append(mode.as_arg());
                out.append("` for ");
                out.append(app_name.as_str());
                out
            },
            LeptosBrowserTestError::FindFreeSitePort { app_name } => {
                let mut out = "failed to find a free site port for ".to_owned();
                out.append(app_name.as_str());
                out
            },
            LeptosBrowserTestError::FindFreeReloadPort { app_name } => {
                let mut out = "failed to find a free reload port for ".to_owned();
                out.append(app_name.as_str());
                out
            },
            LeptosBrowserTestError::StartupStdoutClosed(ctx) => {
                let mut out = ctx.app_name.clone();
                out.append(" stdout closed before startup completed. Expected stdout to contain ");
                out.append(quoted);
                append_tails(&mut out, ctx);
                out
            },
            LeptosBrowserTestError::StartupTimedOut { ctx, reason, .. } => {
                let mut out = ctx.app_name.clone();
                out.append(" did not start within ");
                out.append(duration);
                out.append(" (");
                out.append(reason.as_str());
                out.append("); expected stdout to contain ");
                out.append(quoted);
                append_tails(&mut out, ctx);
                out
            },
            LeptosBrowserTestError::StreamRead(ctx) => {
                let mut out = ctx.app_name.clone();
                out.append(" failed to read stdout while waiting for ");
                out.append(quoted);
                append_tails(&mut out, ctx);
                out
            },
            LeptosBrowserTestError::InvalidSiteAddr { app_name, .. } => {
                let mut out = "invalid site_addr ".to_owned();
                out.append(quoted);
                out.append(" for ");
                out.append(app_name.as_str());
                out.append(": expected `host:port`");
                out
            },
        }
    }

    /// The startup-failure context, for the three variants that carry one.
    pub open spec fn startup_context(&self) -> Option<StartupFailureContext> {
        match self {
            LeptosBrowserTestError::StartupStdoutClosed(ctx) => Some(*ctx),
            LeptosBrowserTestError::StartupTimedOut { ctx, .. } => Some(*ctx),
            LeptosBrowserTestError::StreamRead(ctx) => Some(*ctx),
            _ => None,
        }
    }
}

fn append_tails(out: &mut String, ctx: &StartupFailureContext)
    ensures
        final(out)@ == old(out)@ + tails_text(*ctx),
{
    out.append(".\n\nRecent stdout:\n");
    out.append(ctx.stdout_tail.as_str());
    out.append("\n\nRecent stderr:\n");
    out.append(ctx.stderr_tail.as_str());
}

} // verus!
