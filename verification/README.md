# leptos-browser-test

Launcher for a local Leptos test app driven by browser tests: it starts
`cargo leptos serve` (or `watch`), waits until the app prints its startup
line on stdout or stderr, keeps a bounded tail of the app's output for
failure diagnostics, and hands back the base URL of the running app.

Layout:

- `src/` is the verified library. It holds the configuration builder, the
  `cargo leptos` command plan (program, arguments, environment), free-port
  selection against an excluded port, the bounded output tails, the
  resolution of ports and URLs for one start, the readiness and retry
  decisions, and the error messages. Each function carries a contract, and
  the laws of the library (the output tail holds the last lines pushed,
  added environment entries win over the launcher's own, a start that
  collided on an automatically chosen port is restarted up to three times,
  four starts in all, and no other failure is retried) are proved there.
- `app/` is the process side: it spawns and supervises `cargo leptos`
  with `tokio-process-tools`, forwards and captures output, asks the
  operating system for free ports, and wraps failures in `rootcause`
  reports.
- `tests/` exercises the library on concrete values.
