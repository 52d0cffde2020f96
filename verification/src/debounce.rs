//! The debouncer: a burst of changes leads to one run, once the burst has gone
//! quiet.

use crate::buffer::{all_within, chronological, quiet_since_last, recorded, EventBuffer};
use crate::clock::elapsed;
use vstd::prelude::*;

verus! {

/// The two states of a debouncer.
#[derive(Clone, Copy, Debug, PartialEq, Eq, Structural)]
pub enum DebounceState {
    /// No change has been recorded since the last run.
    Idle,
    /// Changes have been recorded and no run has followed yet.
    Pending,
}

/// The window after the instants of `burst` have been recorded in turn.
pub open spec fn recorded_all(events: Seq<u64>, burst: Seq<u64>, window: u64) -> Seq<u64>
    decreases burst.len(),
{
    if burst.len() == 0 {
        events
    } else {
        recorded(recorded_all(events, burst.drop_last(), window), burst.last(), window)
    }
}

/// Whatever the window held, once a change at `t` is recorded a run is due
/// exactly from the instant at which `quiet_period` has passed since `t`: not
/// while `t` is younger than that, and at every instant from then on.
pub proof fn lemma_quiet_clock_restarts(
    events: Seq<u64>,
    t: u64,
    window: u64,
    quiet_period: u64,
    now: u64,
)
    ensures
        quiet_since_last(recorded(events, t, window), now, quiet_period) <==> elapsed(now, t)
            >= quiet_period,
        t <= now < t + quiet_period ==> !quiet_since_last(
            recorded(events, t, window),
            now,
            quiet_period,
        ),
        now >= t + quiet_period ==> quiet_since_last(
            recorded(events, t, window),
            now,
            quiet_period,
        ),
{
    assert(recorded(events, t, window).last() == t);
}

/// After any burst of changes, whatever came before it, a run is due exactly
/// when `quiet_period` has passed since the last change of the burst.
pub proof fn lemma_burst_fires_after_last(
    events: Seq<u64>,
    burst: Seq<u64>,
    window: u64,
    quiet_period: u64,
    now: u64,
)
    requires
        burst.len() > 0,
    ensures
        quiet_since_last(recorded_all(events, burst, window), now, quiet_period) <==> elapsed(
            now,
            burst.last(),
        ) >= quiet_period,
{
    lemma_quiet_clock_restarts(
        recorded_all(events, burst.drop_last(), window),
        burst.last(),
        window,
        quiet_period,
        now,
    );
}

/// Once a run is due it stays due as time goes on, as long as no change is
/// recorded.
pub proof fn lemma_due_stays_due(events: Seq<u64>, quiet_period: u64, now: u64, later: u64)
    requires
        quiet_since_last(events, now, quiet_period),
        now <= later,
    ensures
        quiet_since_last(events, later, quiet_period),
{
}

/// With no change recorded no run is due, at any instant and for any quiet
/// period.
pub proof fn lemma_idle_never_fires(now: u64, quiet_period: u64)
    ensures
        !quiet_since_last(Seq::<u64>::empty(), now, quiet_period),
{
}

/// A window of recent changes together with the quiet period that must pass
/// after the last of them before a run is due.
pub struct Debouncer {
    buffer: EventBuffer,
    quiet_period: u64,
}

impl Debouncer {
    /// The recorded change instants, oldest first.
    pub closed spec fn events(&self) -> Seq<u64> {
        self.buffer@
    }

    /// The quiet period.
    pub closed spec fn spec_quiet_period(&self) -> u64 {
        self.quiet_period
    }

    /// The length of the window.
    pub closed spec fn spec_window(&self) -> u64 {
        self.buffer.spec_window()
    }

    /// Idle while nothing is recorded, pending otherwise.
    pub open spec fn spec_state(&self) -> DebounceState {
        if self.events().len() == 0 {
            DebounceState::Idle
        } else {
            DebounceState::Pending
        }
    }

    /// Whether a run is due at `now`.
    pub open spec fn fires_at(&self, now: u64) -> bool {
        quiet_since_last(self.events(), now, self.spec_quiet_period())
    }

    /// An idle debouncer.
    pub fn new(window: u64, quiet_period: u64) -> (debouncer: Self)
        ensures
            debouncer.events() == Seq::<u64>::empty(),
            debouncer.spec_window() == window,
            debouncer.spec_quiet_period() == quiet_period,
            debouncer.spec_state() == DebounceState::Idle,
    {
        Self { buffer: EventBuffer::new(window), quiet_period }
    }

    /// The quiet period.
    #[verifier::when_used_as_spec(spec_quiet_period)]
    pub fn quiet_period(&self) -> (q: u64)
        ensures
            q == self.spec_quiet_period(),
    {
        self.quiet_period
    }

    /// The length of the window.
    #[verifier::when_used_as_spec(spec_window)]
    pub fn window(&self) -> (w: u64)
        ensures
            w == self.spec_window(),
    {
        self.buffer.window()
    }

    /// Records a qualifying change at `now`. The debouncer is pending
    /// afterwards, and the quiet period counts from `now`.
    pub fn record(&mut self, now: u64)
        ensures
            final(self).events() == recorded(old(self).events(), now, old(self).spec_window()),
            final(self).spec_window() == old(self).spec_window(),
            final(self).spec_quiet_period() == old(self).spec_quiet_period(),
            final(self).spec_state() == DebounceState::Pending,
            forall|t: u64| #[trigger]
                final(self).fires_at(t) <==> elapsed(t, now) >= old(self).spec_quiet_period(),
            chronological(old(self).events()) && (old(self).events().len() > 0 ==> old(
                self,
            ).events().last() <= now) ==> chronological(final(self).events()) && all_within(
                final(self).events(),
                now,
                old(self).spec_window(),
            ),
    {
        self.buffer.add_event(now);
        proof {
            assert(self.events().last() == now);
        }
    }

    /// Whether a run is due at `now`: a change is recorded, and at least the
    /// quiet period has passed since the last one. The state is left as it is.
    pub fn should_fire(&self, now: u64) -> (fire: bool)
        ensures
            fire == self.fires_at(now),
    {
        self.buffer.should_trigger(now, self.quiet_period)
    }

    /// Forgets every recorded change. The debouncer is idle afterwards, and no
    /// run is due at any instant.
    pub fn reset(&mut self)
        ensures
            final(self).events() == Seq::<u64>::empty(),
            final(self).spec_window() == old(self).spec_window(),
            final(self).spec_quiet_period() == old(self).spec_quiet_period(),
            final(self).spec_state() == DebounceState::Idle,
            forall|t: u64| !#[trigger] final(self).fires_at(t),
    {
        self.buffer.clear();
    }

    /// The current state.
    #[verifier::when_used_as_spec(spec_state)]
    pub fn state(&self) -> (state: DebounceState)
        ensures
            state == self.spec_state(),
    {
        if self.buffer.is_empty() {
            DebounceState::Idle
        } else {
            DebounceState::Pending
        }
    }

    /// The number of recorded changes.
    pub fn pending_events(&self) -> (n: usize)
        ensures
            n == self.events().len(),
    {
        self.buffer.len()
    }
}

} // verus!
