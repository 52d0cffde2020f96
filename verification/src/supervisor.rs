//! The supervisor of one command run: what to do next as the child process
//! starts, writes, closes its streams and exits.

use crate::filter::texts;
use crate::output::Stream;
use vstd::prelude::*;
use vstd::string::*;

verus! {

/// How a run ended.
#[derive(Clone, Copy, Debug, PartialEq, Eq, Structural)]
pub enum Outcome {
    /// The command exited with code zero.
    Succeeded,
    /// The command did not succeed. The code is given where there is one: a
    /// process that a signal ended has none.
    Failed(Option<i32>),
    /// The command ran, but its exit status could not be had.
    WaitFailed,
    /// The command could not be started.
    SpawnFailed,
}

/// Where a run stands.
#[derive(Clone, Copy, Debug, PartialEq, Eq, Structural)]
pub enum Phase {
    /// Nothing has been started.
    Ready,
    /// The child runs and its output is being read. Each flag tells whether
    /// that stream has yet to reach its end.
    Draining { stdout_open: bool, stderr_open: bool },
    /// Both streams have reached their ends; the exit status is awaited.
    Waiting,
    /// The run is over.
    Done(Outcome),
}

/// What happened to the child process.
#[derive(Clone, Debug, PartialEq, Eq)]
pub enum ChildEvent {
    /// The process could not be started.
    SpawnFailed,
    /// The process was started, with a pipe for each stream.
    Spawned,
    /// A line arrived over a stream.
    Line(Stream, String),
    /// A stream reached its end.
    Closed(Stream),
    /// The process exited, with this code if it has one.
    Exited(Option<i32>),
    /// Waiting for the process failed.
    WaitFailed,
}

/// What the caller is to do next.
#[derive(Clone, Copy, Debug, PartialEq, Eq, Structural)]
pub enum Directive {
    /// Start one reader for each stream, both running beside the child.
    Drain,
    /// Go on reading.
    Continue,
    /// Wait for the child to exit.
    Wait,
    /// The run is over: report its result.
    Report,
    /// The event does not belong here; nothing changed.
    Ignore,
}

/// A run as contracts see it: its phase and the lines captured so far, each
/// stream's in the order of arrival.
pub struct RunView {
    /// Where the run stands.
    pub phase: Phase,
    /// The lines captured from standard output.
    pub stdout: Seq<Seq<char>>,
    /// The lines captured from standard error.
    pub stderr: Seq<Seq<char>>,
}

/// The outcome that an exit code stands for: success for zero, failure for any
/// other code and for none.
pub open spec fn outcome_of_code(code: Option<i32>) -> Outcome {
    match code {
        Some(c) => if c == 0 {
            Outcome::Succeeded
        } else {
            Outcome::Failed(Some(c))
        },
        None => Outcome::Failed(None),
    }
}

/// Whether `stream` is still being read in `phase`.
pub open spec fn is_open(phase: Phase, stream: Stream) -> bool {
    match phase {
        Phase::Draining { stdout_open, stderr_open } => match stream {
            Stream::Stdout => stdout_open,
            Stream::Stderr => stderr_open,
        },
        _ => false,
    }
}

/// The phase after `stream` has reached its end: the exit is awaited once both
/// streams have.
pub open spec fn after_close(phase: Phase, stream: Stream) -> Phase {
    match phase {
        Phase::Draining { stdout_open, stderr_open } => {
            let out = stdout_open && stream != Stream::Stdout;
            let err = stderr_open && stream != Stream::Stderr;
            if out || err {
                Phase::Draining { stdout_open: out, stderr_open: err }
            } else {
                Phase::Waiting
            }
        },
        _ => phase,
    }
}

/// `run` with `line` appended to what was captured of `stream`.
pub open spec fn with_line(run: RunView, stream: Stream, line: Seq<char>) -> RunView {
    match stream {
        Stream::Stdout => RunView { stdout: run.stdout.push(line), ..run },
        Stream::Stderr => RunView { stderr: run.stderr.push(line), ..run },
    }
}

/// The transition of the supervisor: the run after `event`, and what to do
/// next. An event that does not belong to the phase changes nothing.
pub open spec fn next(run: RunView, event: ChildEvent) -> (RunView, Directive) {
    match (run.phase, event) {
        (Phase::Ready, ChildEvent::SpawnFailed) => (
            RunView { phase: Phase::Done(Outcome::SpawnFailed), ..run },
            Directive::Report,
        ),
        (Phase::Ready, ChildEvent::Spawned) => (
            RunView { phase: Phase::Draining { stdout_open: true, stderr_open: true }, ..run },
            Directive::Drain,
        ),
        (Phase::Draining { .. }, ChildEvent::Line(stream, line)) => if is_open(run.phase, stream) {
            (with_line(run, stream, line@), Directive::Continue)
        } else {
            (run, Directive::Ignore)
        },
        (Phase::Draining { .. }, ChildEvent::Closed(stream)) => (
            RunView { phase: after_close(run.phase, stream), ..run },
            if after_close(run.phase, stream) == Phase::Waiting {
                Directive::Wait
            } else {
                Directive::Continue
            },
        ),
        (Phase::Waiting, ChildEvent::Exited(code)) => (
            RunView { phase: Phase::Done(outcome_of_code(code)), ..run },
            Directive::Report,
        ),
        (Phase::Waiting, ChildEvent::WaitFailed) => (
            RunView { phase: Phase::Done(Outcome::WaitFailed), ..run },
            Directive::Report,
        ),
        _ => (run, Directive::Ignore),
    }
}

/// The run after the events of `events`, taken in turn.
pub open spec fn next_all(run: RunView, events: Seq<ChildEvent>) -> RunView
    decreases events.len(),
{
    if events.len() == 0 {
        run
    } else {
        next(next_all(run, events.drop_last()), events.last()).0
    }
}

/// The lines that arrive over `stream` in `events`, in their order.
pub open spec fn lines_of(events: Seq<ChildEvent>, stream: Stream) -> Seq<Seq<char>>
    decreases events.len(),
{
    if events.len() == 0 {
        Seq::empty()
    } else {
        let before = lines_of(events.drop_last(), stream);
        match events.last() {
            ChildEvent::Line(s, line) => if s == stream {
                before.push(line@)
            } else {
                before
            },
            _ => before,
        }
    }
}

/// Computes [`outcome_of_code`].
pub fn outcome_from_code(code: Option<i32>) -> (outcome: Outcome)
    ensures
        outcome == outcome_of_code(code),
        outcome == Outcome::Succeeded <==> code == Some(0i32),
{
    match code {
        Some(c) => if c == 0 {
            Outcome::Succeeded
        } else {
            Outcome::Failed(Some(c))
        },
        None => Outcome::Failed(None),
    }
}

/// The wait for the exit is directed only by the end of the last open stream:
/// before it the run was draining, and after it no stream is open.
pub proof fn lemma_wait_follows_drains(run: RunView, event: ChildEvent)
    requires
        next(run, event).1 == Directive::Wait,
    ensures
        run.phase is Draining,
        event is Closed,
        next(run, event).0.phase == Phase::Waiting,
        !is_open(next(run, event).0.phase, Stream::Stdout),
        !is_open(next(run, event).0.phase, Stream::Stderr),
{
}

/// An outcome with an exit status is reported only after the wait, and so only
/// after both streams have reached their ends.
pub proof fn lemma_exit_reported_after_wait(run: RunView, event: ChildEvent)
    requires
        next(run, event).1 == Directive::Report,
        !(next(run, event).0.phase == Phase::Done(Outcome::SpawnFailed)),
    ensures
        run.phase == Phase::Waiting,
{
}

/// A process that could not be started ends the run at once: the outcome says
/// so, nothing is captured, and whatever events follow, none is acted on.
pub proof fn lemma_spawn_failure_short_circuits(events: Seq<ChildEvent>)
    ensures
        next(Supervisor::initial(), ChildEvent::SpawnFailed) == (
            RunView { phase: Phase::Done(Outcome::SpawnFailed), ..Supervisor::initial() },
            Directive::Report,
        ),
        next_all(next(Supervisor::initial(), ChildEvent::SpawnFailed).0, events) == next(
            Supervisor::initial(),
            ChildEvent::SpawnFailed,
        ).0,
        events.len() > 0 ==> next(
            next_all(next(Supervisor::initial(), ChildEvent::SpawnFailed).0, events.drop_last()),
            events.last(),
        ).1 == Directive::Ignore,
    decreases events.len(),
{
    if events.len() > 0 {
        lemma_spawn_failure_short_circuits(events.drop_last());
    }
}

/// While both streams are open, lines that arrive in any interleaving are
/// captured stream by stream, each stream's in the order in which they came.
pub proof fn lemma_stream_order_kept(run: RunView, events: Seq<ChildEvent>)
    requires
        run.phase == (Phase::Draining { stdout_open: true, stderr_open: true }),
        forall|i: int| 0 <= i < events.len() ==> events[i] is Line,
    ensures
        next_all(run, events).phase == run.phase,
        next_all(run, events).stdout == run.stdout + lines_of(events, Stream::Stdout),
        next_all(run, events).stderr == run.stderr + lines_of(events, Stream::Stderr),
    decreases events.len(),
{
    if events.len() == 0 {
        assert(run.stdout + lines_of(events, Stream::Stdout) =~= run.stdout);
        assert(run.stderr + lines_of(events, Stream::Stderr) =~= run.stderr);
    } else {
        let front = events.drop_last();
        lemma_stream_order_kept(run, front);
        let before = next_all(run, front);
        assert(events.last() is Line);
        match events.last() {
            ChildEvent::Line(stream, line) => {
                assert(is_open(before.phase, stream));
                assert(next_all(run, events) == with_line(before, stream, line@));
                assert(next_all(run, events).stdout =~= run.stdout + lines_of(
                    events,
                    Stream::Stdout,
                ));
                assert(next_all(run, events).stderr =~= run.stderr + lines_of(
                    events,
                    Stream::Stderr,
                ));
            },
            _ => {},
        }
    }
}

/// What a finished run hands back.
#[derive(Clone, Debug, PartialEq, Eq)]
pub struct CommandResult {
    /// How the run ended.
    pub outcome: Outcome,
    /// The lines that came over standard output, in their order.
    pub stdout_lines: Vec<String>,
    /// The lines that came over standard error, in their order.
    pub stderr_lines: Vec<String>,
}

/// The supervisor of one run.
pub struct Supervisor {
    phase: Phase,
    stdout_lines: Vec<String>,
    stderr_lines: Vec<String>,
}

impl View for Supervisor {
    type V = RunView;

    closed spec fn view(&self) -> RunView {
        RunView {
            phase: self.phase,
            stdout: texts(self.stdout_lines@),
            stderr: texts(self.stderr_lines@),
        }
    }
}

impl Supervisor {
    /// The run before anything has happened.
    pub open spec fn initial() -> RunView {
        RunView { phase: Phase::Ready, stdout: Seq::empty(), stderr: Seq::empty() }
    }

    /// A supervisor for a run that has not been started.
    pub fn new() -> (supervisor: Self)
        ensures
            supervisor@ == Self::initial(),
    {
        let supervisor = Self {
            phase: Phase::Ready,
            stdout_lines: Vec::new(),
            stderr_lines: Vec::new(),
        };
        proof {
            assert(supervisor@.stdout =~= Seq::empty());
            assert(supervisor@.stderr =~= Seq::empty());
        }
        supervisor
    }

    /// Where the run stands.
    pub fn phase(&self) -> (phase: Phase)
        ensures
            phase == self@.phase,
    {
        self.phase
    }

    /// Takes in what happened to the child and says what to do next.
    pub fn step(&mut self, event: ChildEvent) -> (directive: Directive)
        ensures
            (final(self)@, directive) == next(old(self)@, event),
    {
        match self.phase {
            Phase::Ready => match event {
                ChildEvent::SpawnFailed => {
                    self.phase = Phase::Done(Outcome::SpawnFailed);
                    Directive::Report
                },
                ChildEvent::Spawned => {
                    self.phase = Phase::Draining { stdout_open: true, stderr_open: true };
                    Directive::Drain
                },
                _ => Directive::Ignore,
            },
            Phase::Draining { stdout_open, stderr_open } => match event {
                ChildEvent::Line(stream, line) => {
                    match stream {
                        Stream::Stdout => {
                            if stdout_open {
                                let ghost before = self.stdout_lines@;
                                self.stdout_lines.push(line);
                                proof {
                                    assert(texts(self.stdout_lines@) =~= texts(before).push(line@));
                                }
                                Directive::Continue
                            } else {
                                Directive::Ignore
                            }
                        },
                        Stream::Stderr => {
                            if stderr_open {
                                let ghost before = self.stderr_lines@;
                                self.stderr_lines.push(line);
                                proof {
                                    assert(texts(self.stderr_lines@) =~= texts(before).push(line@));
                                }
                                Directive::Continue
                            } else {
                                Directive::Ignore
                            }
                        },
                    }
                },
                ChildEvent::Closed(stream) => {
                    let out = match stream {
                        Stream::Stdout => false,
                        Stream::Stderr => stdout_open,
                    };
                    let err = match stream {
                        Stream::Stdout => stderr_open,
                        Stream::Stderr => false,
                    };
                    if out || err {
                        self.phase = Phase::Draining { stdout_open: out, stderr_open: err };
                        Directive::Continue
                    } else {
                        self.phase = Phase::Waiting;
                        Directive::Wait
                    }
                },
                _ => Directive::Ignore,
            },
            Phase::Waiting => match event {
                ChildEvent::Exited(code) => {
                    self.phase = Phase::Done(outcome_from_code(code));
                    Directive::Report
                },
                ChildEvent::WaitFailed => {
                    self.phase = Phase::Done(Outcome::WaitFailed);
                    Directive::Report
                },
                _ => Directive::Ignore,
            },
            Phase::Done(_) => Directive::Ignore,
        }
    }

    /// The result of the run, once it is over: its outcome, and each stream's
    /// lines as they were captured.
    pub fn into_result(self) -> (result: Option<CommandResult>)
        ensures
            match self@.phase {
                Phase::Done(outcome) => result matches Some(r) && r.outcome == outcome && texts(
                    r.stdout_lines@,
                ) == self@.stdout && texts(r.stderr_lines@) == self@.stderr,
                _ => result is None,
            },
    {
        match self.phase {
            Phase::Done(outcome) => Some(
                CommandResult {
                    outcome,
                    stdout_lines: self.stdout_lines,
                    stderr_lines: self.stderr_lines,
                },
            ),
            _ => None,
        }
    }
}

} // verus!
