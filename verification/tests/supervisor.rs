use watchrun::output::{classify_line, render_line, Severity, Stream};
use watchrun::supervisor::{outcome_from_code, ChildEvent, CommandResult, Directive, Outcome, Phase, Supervisor};

fn line(stream: Stream, text: &str) -> ChildEvent {
    ChildEvent::Line(stream, text.to_string())
}

fn strings(words: &[&str]) -> Vec<String> {
    words.iter().map(|w| w.to_string()).collect()
}

#[test]
fn stderr_lines_are_errors() {
    assert_eq!(classify_line("all good", Stream::Stderr, false), Severity::Error);
    assert_eq!(classify_line("all good", Stream::Stderr, true), Severity::Error);
    assert_eq!(classify_line("", Stream::Stderr, false), Severity::Error);
}

#[test]
fn stdout_lines_are_normal_outside_build_tool_mode() {
    assert_eq!(classify_line("all good", Stream::Stdout, false), Severity::Normal);
    assert_eq!(classify_line("error: it broke", Stream::Stdout, false), Severity::Normal);
    assert_eq!(classify_line("warning: unused", Stream::Stdout, false), Severity::Normal);
}

#[test]
fn build_tool_mode_reads_the_markers() {
    assert_eq!(classify_line("error: it broke", Stream::Stdout, true), Severity::Error);
    assert_eq!(classify_line("src/a.rs:1: warning: unused", Stream::Stdout, true), Severity::Error);
    assert_eq!(classify_line("x error:", Stream::Stdout, true), Severity::Error);
    assert_eq!(classify_line("all good", Stream::Stdout, true), Severity::Normal);
    assert_eq!(classify_line("error without colon", Stream::Stdout, true), Severity::Normal);
    assert_eq!(classify_line("Error: capitalised", Stream::Stdout, true), Severity::Normal);
    assert_eq!(classify_line("", Stream::Stdout, true), Severity::Normal);
}

#[test]
fn errors_are_rendered_in_red() {
    assert_eq!(render_line("boom", Severity::Error), "\x1b[31mboom\x1b[0m");
    assert_eq!(render_line("", Severity::Error), "\x1b[31m\x1b[0m");
}

#[test]
fn normal_lines_are_rendered_unchanged() {
    assert_eq!(render_line("fine", Severity::Normal), "fine");
    assert_eq!(render_line("", Severity::Normal), "");
}

#[test]
fn exit_code_zero_is_success() {
    assert_eq!(outcome_from_code(Some(0)), Outcome::Succeeded);
}

#[test]
fn exit_code_two_is_a_failure_with_its_code() {
    assert_eq!(outcome_from_code(Some(2)), Outcome::Failed(Some(2)));
    assert_ne!(outcome_from_code(Some(2)), Outcome::Succeeded);
    assert_eq!(outcome_from_code(Some(-1)), Outcome::Failed(Some(-1)));
}

#[test]
fn no_exit_code_is_a_failure_without_code() {
    assert_eq!(outcome_from_code(None), Outcome::Failed(None));
}

#[test]
fn a_run_that_exits_with_two() {
    let mut supervisor = Supervisor::new();
    assert_eq!(supervisor.phase(), Phase::Ready);
    assert_eq!(supervisor.step(ChildEvent::Spawned), Directive::Drain);
    assert_eq!(supervisor.step(line(Stream::Stdout, "compiling")), Directive::Continue);
    assert_eq!(supervisor.step(ChildEvent::Closed(Stream::Stdout)), Directive::Continue);
    assert_eq!(supervisor.step(ChildEvent::Closed(Stream::Stderr)), Directive::Wait);
    assert_eq!(supervisor.phase(), Phase::Waiting);
    assert_eq!(supervisor.step(ChildEvent::Exited(Some(2))), Directive::Report);
    assert_eq!(supervisor.phase(), Phase::Done(Outcome::Failed(Some(2))));
    assert_eq!(
        supervisor.into_result(),
        Some(CommandResult {
            outcome: Outcome::Failed(Some(2)),
            stdout_lines: strings(&["compiling"]),
            stderr_lines: Vec::new(),
        })
    );
}

#[test]
fn a_run_that_succeeds() {
    let mut supervisor = Supervisor::new();
    assert_eq!(supervisor.step(ChildEvent::Spawned), Directive::Drain);
    assert_eq!(supervisor.step(ChildEvent::Closed(Stream::Stderr)), Directive::Continue);
    assert_eq!(supervisor.step(ChildEvent::Closed(Stream::Stdout)), Directive::Wait);
    assert_eq!(supervisor.step(ChildEvent::Exited(Some(0))), Directive::Report);
    let result = supervisor.into_result();
    assert_eq!(
        result,
        Some(CommandResult { outcome: Outcome::Succeeded, stdout_lines: Vec::new(), stderr_lines: Vec::new() })
    );
}

#[test]
fn interleaved_lines_keep_their_order_per_stream() {
    let mut supervisor = Supervisor::new();
    supervisor.step(ChildEvent::Spawned);
    let arrivals = [
        (Stream::Stdout, "out 1"),
        (Stream::Stderr, "err 1"),
        (Stream::Stderr, "err 2"),
        (Stream::Stdout, "out 2"),
        (Stream::Stderr, "err 3"),
        (Stream::Stdout, "out 3"),
    ];
    for (stream, text) in arrivals {
        assert_eq!(supervisor.step(line(stream, text)), Directive::Continue);
    }
    supervisor.step(ChildEvent::Closed(Stream::Stdout));
    supervisor.step(ChildEvent::Closed(Stream::Stderr));
    supervisor.step(ChildEvent::Exited(Some(0)));
    let result = supervisor.into_result().unwrap();
    assert_eq!(result.stdout_lines, strings(&["out 1", "out 2", "out 3"]));
    assert_eq!(result.stderr_lines, strings(&["err 1", "err 2", "err 3"]));
    assert_eq!(result.outcome, Outcome::Succeeded);
}

#[test]
fn another_interleaving_gives_the_same_streams() {
    let mut supervisor = Supervisor::new();
    supervisor.step(ChildEvent::Spawned);
    let arrivals = [
        (Stream::Stderr, "err 1"),
        (Stream::Stderr, "err 2"),
        (Stream::Stderr, "err 3"),
        (Stream::Stdout, "out 1"),
        (Stream::Stdout, "out 2"),
        (Stream::Stdout, "out 3"),
    ];
    for (stream, text) in arrivals {
        supervisor.step(line(stream, text));
    }
    supervisor.step(ChildEvent::Closed(Stream::Stderr));
    supervisor.step(ChildEvent::Closed(Stream::Stdout));
    supervisor.step(ChildEvent::Exited(Some(0)));
    let result = supervisor.into_result().unwrap();
    assert_eq!(result.stdout_lines, strings(&["out 1", "out 2", "out 3"]));
    assert_eq!(result.stderr_lines, strings(&["err 1", "err 2", "err 3"]));
}

#[test]
fn spawn_failure_ends_the_run_without_draining() {
    let mut supervisor = Supervisor::new();
    assert_eq!(supervisor.step(ChildEvent::SpawnFailed), Directive::Report);
    assert_eq!(supervisor.phase(), Phase::Done(Outcome::SpawnFailed));
    assert_eq!(supervisor.step(line(Stream::Stdout, "late")), Directive::Ignore);
    assert_eq!(supervisor.step(ChildEvent::Closed(Stream::Stdout)), Directive::Ignore);
    assert_eq!(supervisor.step(ChildEvent::Spawned), Directive::Ignore);
    assert_eq!(supervisor.step(ChildEvent::Exited(Some(0))), Directive::Ignore);
    assert_eq!(
        supervisor.into_result(),
        Some(CommandResult { outcome: Outcome::SpawnFailed, stdout_lines: Vec::new(), stderr_lines: Vec::new() })
    );
}

#[test]
fn wait_failure_is_its_own_outcome() {
    let mut supervisor = Supervisor::new();
    supervisor.step(ChildEvent::Spawned);
    supervisor.step(line(Stream::Stderr, "oops"));
    supervisor.step(ChildEvent::Closed(Stream::Stdout));
    supervisor.step(ChildEvent::Closed(Stream::Stderr));
    assert_eq!(supervisor.step(ChildEvent::WaitFailed), Directive::Report);
    let result = supervisor.into_result().unwrap();
    assert_eq!(result.outcome, Outcome::WaitFailed);
    assert_eq!(result.stderr_lines, strings(&["oops"]));
}

#[test]
fn the_exit_is_not_taken_before_both_streams_end() {
    let mut supervisor = Supervisor::new();
    supervisor.step(ChildEvent::Spawned);
    assert_eq!(supervisor.step(ChildEvent::Exited(Some(0))), Directive::Ignore);
    assert_eq!(supervisor.phase(), Phase::Draining { stdout_open: true, stderr_open: true });
    supervisor.step(ChildEvent::Closed(Stream::Stdout));
    assert_eq!(supervisor.step(ChildEvent::Exited(Some(0))), Directive::Ignore);
    assert_eq!(supervisor.step(ChildEvent::WaitFailed), Directive::Ignore);
    assert_eq!(supervisor.phase(), Phase::Draining { stdout_open: false, stderr_open: true });
}

#[test]
fn a_line_after_the_end_of_its_stream_is_ignored() {
    let mut supervisor = Supervisor::new();
    supervisor.step(ChildEvent::Spawned);
    supervisor.step(line(Stream::Stdout, "first"));
    supervisor.step(ChildEvent::Closed(Stream::Stdout));
    assert_eq!(supervisor.step(line(Stream::Stdout, "late")), Directive::Ignore);
    assert_eq!(supervisor.step(line(Stream::Stderr, "still open")), Directive::Continue);
    assert_eq!(supervisor.step(ChildEvent::Closed(Stream::Stdout)), Directive::Continue);
    assert_eq!(supervisor.step(ChildEvent::Closed(Stream::Stderr)), Directive::Wait);
    supervisor.step(ChildEvent::Exited(Some(0)));
    let result = supervisor.into_result().unwrap();
    assert_eq!(result.stdout_lines, strings(&["first"]));
    assert_eq!(result.stderr_lines, strings(&["still open"]));
}

#[test]
fn events_before_the_start_are_ignored() {
    let mut supervisor = Supervisor::new();
    assert_eq!(supervisor.step(line(Stream::Stdout, "early")), Directive::Ignore);
    assert_eq!(supervisor.step(ChildEvent::Closed(Stream::Stderr)), Directive::Ignore);
    assert_eq!(supervisor.step(ChildEvent::Exited(Some(1))), Directive::Ignore);
    assert_eq!(supervisor.step(ChildEvent::WaitFailed), Directive::Ignore);
    assert_eq!(supervisor.phase(), Phase::Ready);
}

#[test]
fn an_unfinished_run_has_no_result() {
    assert_eq!(Supervisor::new().into_result(), None);
    let mut supervisor = Supervisor::new();
    supervisor.step(ChildEvent::Spawned);
    supervisor.step(ChildEvent::Closed(Stream::Stdout));
    supervisor.step(ChildEvent::Closed(Stream::Stderr));
    assert_eq!(supervisor.into_result(), None);
}
