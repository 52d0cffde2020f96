//! The run loop's decisions: what each input from the watch source, the clock
//! and the command leads to.

use crate::buffer::{quiet_since_last, recorded};
use crate::clock::elapsed;
use crate::command::CommandSpec;
use crate::debounce::Debouncer;
use crate::event::{change_of, is_relevant_event, relevant, EventKind};
use crate::filter::{any_path_matches, some_path_allowed, texts};
use vstd::prelude::*;
use vstd::string::*;

verus! {

/// What is watched, and what is run on a change.
#[derive(Clone, Debug, PartialEq, Eq)]
pub struct WatchConfig {
    /// The directory that is watched, and in which the command runs.
    pub directory: String,
    /// The extensions that count. Empty: every path counts.
    pub extensions: Vec<String>,
    /// The command to run.
    pub command: CommandSpec,
}

/// A raw event of the watch source.
#[derive(Clone, Debug, PartialEq, Eq)]
pub struct ChangeEvent {
    /// What happened.
    pub kind: EventKind,
    /// The paths that it happened to.
    pub paths: Vec<String>,
    /// When it was received.
    pub timestamp: u64,
}

/// The states of the run loop.
#[derive(Clone, Copy, Debug, PartialEq, Eq, Structural)]
pub enum WatchState {
    /// Nothing has changed since the last run.
    Watching,
    /// Changes are recorded and the burst has not gone quiet yet.
    Pending,
    /// The command is running.
    Running,
    /// The watch source is gone for good.
    Stopped,
}

/// What the run loop is handed.
#[derive(Clone, Debug, PartialEq, Eq)]
pub enum Input {
    /// The watch source delivered an event.
    Change(ChangeEvent),
    /// The poll interval passed without an event; the instant is the time now.
    Tick(u64),
    /// The watch source reported an error and goes on.
    SourceError,
    /// The watch source is gone for good.
    Disconnected,
    /// The command that was running has ended and its result is reported.
    CommandFinished,
}

/// What the run loop is to do.
#[derive(Clone, Copy, Debug, PartialEq, Eq, Structural)]
pub enum Action {
    /// Go on listening.
    Continue,
    /// Run the command now, then hand over `CommandFinished`.
    Run,
    /// Log the error and go on listening.
    LogError,
    /// Leave the loop.
    Stop,
    /// The input does not belong to the state; nothing changed.
    Ignore,
}

/// The run loop as contracts see it.
pub struct WatchView {
    /// Where the loop stands.
    pub state: WatchState,
    /// The instants of the changes recorded since the last run, oldest first.
    pub events: Seq<u64>,
    /// How far back changes are kept.
    pub window: u64,
    /// How long a burst must have been quiet before the command runs.
    pub quiet_period: u64,
    /// The extensions that count.
    pub extensions: Seq<Seq<char>>,
}

/// Whether an event counts: its kind is relevant and one of its paths passes
/// the extension filter.
pub open spec fn qualifies(event: ChangeEvent, extensions: Seq<Seq<char>>) -> bool {
    relevant(change_of(event.kind)) && some_path_allowed(texts(event.paths@), extensions)
}

/// The state agrees with the window: changes are recorded exactly while the
/// loop is pending or running.
pub open spec fn consistent(w: WatchView) -> bool {
    match w.state {
        WatchState::Watching => w.events.len() == 0,
        WatchState::Pending => w.events.len() > 0,
        WatchState::Running => w.events.len() > 0,
        WatchState::Stopped => true,
    }
}

/// The transition of the run loop.
///
/// While watching or pending, an event that counts is recorded and leaves the
/// loop pending, and a tick starts a run when the burst has gone quiet. The
/// end of a run clears the window and returns to watching. A disconnect stops
/// the loop from any state, and an error of the source is logged. A stopped
/// loop takes nothing in.
pub open spec fn advance(w: WatchView, input: Input) -> (WatchView, Action) {
    match (w.state, input) {
        (WatchState::Stopped, _) => (w, Action::Ignore),
        (_, Input::Disconnected) => (WatchView { state: WatchState::Stopped, ..w }, Action::Stop),
        (_, Input::SourceError) => (w, Action::LogError),
        (WatchState::Running, Input::CommandFinished) => (
            WatchView { state: WatchState::Watching, events: Seq::empty(), ..w },
            Action::Continue,
        ),
        (WatchState::Running, _) => (w, Action::Ignore),
        (_, Input::CommandFinished) => (w, Action::Ignore),
        (_, Input::Change(event)) => if qualifies(event, w.extensions) {
            (
                WatchView {
                    state: WatchState::Pending,
                    events: recorded(w.events, event.timestamp, w.window),
                    ..w
                },
                Action::Continue,
            )
        } else {
            (w, Action::Continue)
        },
        (_, Input::Tick(now)) => if quiet_since_last(w.events, now, w.quiet_period) {
            (WatchView { state: WatchState::Running, ..w }, Action::Run)
        } else {
            (w, Action::Continue)
        },
    }
}

/// Every transition keeps the state and the window in agreement.
pub proof fn lemma_advance_keeps_consistent(w: WatchView, input: Input)
    requires
        consistent(w),
    ensures
        consistent(advance(w, input).0),
{
}

/// A run starts only on a tick at which the burst has gone quiet, never while
/// another run is under way, and the loop is running afterwards.
pub proof fn lemma_run_only_when_quiet(w: WatchView, input: Input)
    requires
        advance(w, input).1 == Action::Run,
    ensures
        input matches Input::Tick(now) && quiet_since_last(w.events, now, w.quiet_period),
        w.state == WatchState::Watching || w.state == WatchState::Pending,
        advance(w, input).0.state == WatchState::Running,
{
}

/// After a run has started, no tick starts another until the command has
/// finished; and once it has, none does until a new change is recorded.
pub proof fn lemma_one_run_per_burst(w: WatchView, input: Input, now: u64, later: u64)
    requires
        advance(w, input).1 == Action::Run,
    ensures
        advance(advance(w, input).0, Input::Tick(now)).1 == Action::Ignore,
        advance(
            advance(advance(w, input).0, Input::CommandFinished).0,
            Input::Tick(later),
        ).1 == Action::Continue,
{
}

/// While the loop watches or is pending, an event that does not count changes
/// nothing: neither the state nor the instant from which the quiet period is
/// counted.
pub proof fn lemma_other_events_change_nothing(w: WatchView, event: ChangeEvent)
    requires
        w.state == WatchState::Watching || w.state == WatchState::Pending,
        !qualifies(event, w.extensions),
    ensures
        advance(w, Input::Change(event)) == (w, Action::Continue),
{
}

/// After an event that counts, a tick starts a run exactly when the quiet
/// period has passed since that event, whatever was recorded before it.
pub proof fn lemma_run_follows_quiet_period(w: WatchView, event: ChangeEvent, now: u64)
    requires
        w.state == WatchState::Watching || w.state == WatchState::Pending,
        qualifies(event, w.extensions),
    ensures
        advance(w, Input::Change(event)).0.state == WatchState::Pending,
        advance(advance(w, Input::Change(event)).0, Input::Tick(now)).1 == (if elapsed(
            now,
            event.timestamp,
        ) >= w.quiet_period {
            Action::Run
        } else {
            Action::Continue
        }),
{
    assert(recorded(w.events, event.timestamp, w.window).last() == event.timestamp);
}

/// A stopped loop stays stopped.
pub proof fn lemma_stopped_is_final(w: WatchView, input: Input)
    requires
        w.state == WatchState::Stopped,
    ensures
        advance(w, input) == (w, Action::Ignore),
{
}

/// The run loop's state: the configuration, the debouncer and where the loop
/// stands.
pub struct Orchestrator {
    config: WatchConfig,
    debouncer: Debouncer,
    state: WatchState,
}

impl View for Orchestrator {
    type V = WatchView;

    closed spec fn view(&self) -> WatchView {
        WatchView {
            state: self.state,
            events: self.debouncer.events(),
            window: self.debouncer.spec_window(),
            quiet_period: self.debouncer.spec_quiet_period(),
            extensions: texts(self.config.extensions@),
        }
    }
}

impl Orchestrator {
    /// The configuration.
    pub closed spec fn spec_config(&self) -> WatchConfig {
        self.config
    }

    /// A loop that watches, with nothing recorded.
    pub fn new(config: WatchConfig, window: u64, quiet_period: u64) -> (orchestrator: Self)
        ensures
            orchestrator@ == (WatchView {
                state: WatchState::Watching,
                events: Seq::empty(),
                window,
                quiet_period,
                extensions: texts(config.extensions@),
            }),
            orchestrator.spec_config() == config,
            consistent(orchestrator@),
    {
        Self { config, debouncer: Debouncer::new(window, quiet_period), state: WatchState::Watching }
    }

    /// The configuration.
    pub fn config(&self) -> (config: &WatchConfig)
        ensures
            *config == self.spec_config(),
    {
        &self.config
    }

    /// Where the loop stands.
    pub fn state(&self) -> (state: WatchState)
        ensures
            state == self@.state,
    {
        self.state
    }

    /// Whether an event counts for this loop's filter.
    pub fn accepts(&self, event: &ChangeEvent) -> (yes: bool)
        ensures
            yes == qualifies(*event, self@.extensions),
    {
        is_relevant_event(&event.kind) && any_path_matches(
            event.paths.as_slice(),
            self.config.extensions.as_slice(),
        )
    }

    /// Takes in one input and says what to do.
    pub fn step(&mut self, input: Input) -> (action: Action)
        ensures
            (final(self)@, action) == advance(old(self)@, input),
            final(self).spec_config() == old(self).spec_config(),
            consistent(old(self)@) ==> consistent(final(self)@),
    {
        match self.state {
            WatchState::Stopped => Action::Ignore,
            WatchState::Running => match input {
                Input::Disconnected => {
                    self.state = WatchState::Stopped;
                    Action::Stop
                },
                Input::SourceError => Action::LogError,
                Input::CommandFinished => {
                    self.debouncer.reset();
                    self.state = WatchState::Watching;
                    Action::Continue
                },
                _ => Action::Ignore,
            },
            _ => match input {
                Input::Disconnected => {
                    self.state = WatchState::Stopped;
                    Action::Stop
                },
                Input::SourceError => Action::LogError,
                Input::CommandFinished => Action::Ignore,
                Input::Change(event) => {
                    if self.accepts(&event) {
                        self.debouncer.record(event.timestamp);
                        self.state = WatchState::Pending;
                    }
                    Action::Continue
                },
                Input::Tick(now) => {
                    if self.debouncer.should_fire(now) {
                        self.state = WatchState::Running;
                        Action::Run
                    } else {
                        Action::Continue
                    }
                },
            },
        }
    }
}

} // verus!
