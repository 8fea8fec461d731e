use leptos_browser_test::{StartupLogBuffer, StartupLogs};

#[test]
fn startup_log_buffer_keeps_recent_tail() {
    let mut buffer = StartupLogBuffer::new(2);

    buffer.push("one");
    buffer.push("two");
    buffer.push("three");

    assert_eq!(buffer.render(), "two\nthree");
}

#[test]
fn startup_log_buffer_can_be_disabled() {
    let mut buffer = StartupLogBuffer::new(0);

    buffer.push("ignored");

    assert_eq!(buffer.render(), "<no output captured>");
}

#[test]
fn empty_buffer_renders_placeholder() {
    let buffer = StartupLogBuffer::new(5);
    assert_eq!(buffer.render(), "<no output captured>");
    assert_eq!(buffer.max_lines(), 5);
}

#[test]
fn buffer_below_capacity_keeps_every_line() {
    let mut buffer = StartupLogBuffer::new(3);
    buffer.push("a");
    buffer.push("b");
    assert_eq!(buffer.render(), "a\nb");
}

#[test]
fn buffer_holds_last_lines_of_a_long_history() {
    let mut buffer = StartupLogBuffer::new(3);
    for line in ["l1", "l2", "l3", "l4", "l5", "l6", "l7"] {
        buffer.push(line);
    }
    assert_eq!(buffer.render(), "l5\nl6\nl7");
}

#[test]
fn empty_lines_are_kept() {
    let mut buffer = StartupLogBuffer::new(2);
    buffer.push("");
    buffer.push("");
    assert_eq!(buffer.render(), "\n");
}

#[test]
fn startup_logs_render_both_streams() {
    let mut logs = StartupLogs::new(2);
    assert_eq!(logs.stdout_tail(), "<no output captured>");
    assert_eq!(logs.stderr_tail(), "<no output captured>");
    logs.stdout.push("out-1");
    logs.stderr.push("err-1");
    logs.stderr.push("err-2");
    logs.stderr.push("err-3");
    assert_eq!(logs.stdout_tail(), "out-1");
    assert_eq!(logs.stderr_tail(), "err-2\nerr-3");
}
