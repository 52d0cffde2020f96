//! The sliding window of recent change instants.

use crate::clock::{elapsed, elapsed_since};
use std::collections::VecDeque;
use vstd::prelude::*;

verus! {

/// An instant `t` is stale at `now` when more than `window` has passed since it.
pub open spec fn stale(now: u64, t: u64, window: u64) -> bool {
    elapsed(now, t) > window
}

/// How many entries at the front of `events` are stale at `now`, counted up to
/// the first one that is not.
pub open spec fn stale_prefix(events: Seq<u64>, now: u64, window: u64) -> nat
    decreases events.len(),
{
    if events.len() > 0 && stale(now, events[0], window) {
        1 + stale_prefix(events.drop_first(), now, window)
    } else {
        0
    }
}

/// `events` without its stale front.
pub open spec fn pruned(events: Seq<u64>, now: u64, window: u64) -> Seq<u64> {
    events.skip(stale_prefix(events, now, window) as int)
}

/// The window after an event at `now`: the stale front is dropped, then `now`
/// is appended.
pub open spec fn recorded(events: Seq<u64>, now: u64, window: u64) -> Seq<u64> {
    pruned(events, now, window).push(now)
}

/// Whether a window holding `events` calls for a run at `now`: it holds an
/// event, and at least `quiet_period` has passed since the last one.
pub open spec fn quiet_since_last(events: Seq<u64>, now: u64, quiet_period: u64) -> bool {
    events.len() > 0 && elapsed(now, events.last()) >= quiet_period
}

/// Instants in the order in which a monotonic clock hands them out.
pub open spec fn chronological(events: Seq<u64>) -> bool {
    forall|i: int, j: int| 0 <= i <= j < events.len() ==> events[i] <= events[j]
}

/// Every entry lies at most `window` before `now`.
pub open spec fn all_within(events: Seq<u64>, now: u64, window: u64) -> bool {
    forall|i: int| 0 <= i < events.len() ==> !stale(now, #[trigger] events[i], window)
}

/// The stale front never reaches past the end, every entry of it is stale, and
/// the entry behind it, if there is one, is not.
pub proof fn lemma_stale_prefix(events: Seq<u64>, now: u64, window: u64)
    ensures
        stale_prefix(events, now, window) <= events.len(),
        forall|i: int|
            0 <= i < stale_prefix(events, now, window) ==> stale(now, #[trigger] events[i], window),
        stale_prefix(events, now, window) < events.len() ==> !stale(
            now,
            events[stale_prefix(events, now, window) as int],
            window,
        ),
    decreases events.len(),
{
    if events.len() > 0 && stale(now, events[0], window) {
        let rest = events.drop_first();
        lemma_stale_prefix(rest, now, window);
        let k = stale_prefix(rest, now, window) as int;
        assert forall|i: int| 0 <= i < k + 1 implies stale(now, #[trigger] events[i], window) by {
            if i > 0 {
                assert(events[i] == rest[i - 1]);
            }
        }
        if k + 1 < events.len() {
            assert(events[k + 1] == rest[k]);
        }
    }
}

/// In a chronological window that `now` does not precede, pruning removes the
/// stale entries and no others, and recording `now` keeps the window
/// chronological with every entry at most `window` old.
pub proof fn lemma_recorded_window(events: Seq<u64>, now: u64, window: u64)
    requires
        chronological(events),
        events.len() > 0 ==> events.last() <= now,
    ensures
        pruned(events, now, window) == events.filter(|t: u64| !stale(now, t, window)),
        chronological(recorded(events, now, window)),
        all_within(recorded(events, now, window), now, window),
{
    lemma_stale_prefix(events, now, window);
    let k = stale_prefix(events, now, window) as int;
    let kept = pruned(events, now, window);
    let keep = |t: u64| !stale(now, t, window);
    assert forall|i: int| 0 <= i < kept.len() implies !stale(now, #[trigger] kept[i], window) by {
        assert(kept[i] == events[k + i]);
        assert(events[k] <= events[k + i]);
    }
    lemma_filter_split(events, k, keep);
    let after = recorded(events, now, window);
    assert forall|i: int, j: int| 0 <= i <= j < after.len() implies after[i] <= after[j] by {
        if j < kept.len() {
            assert(after[i] == events[k + i] && after[j] == events[k + j]);
        } else if i < kept.len() {
            assert(after[i] == events[k + i]);
            assert(events[k + i] <= events.last());
        }
    }
}

/// Filtering a sequence whose first `k` entries all fail `keep`, and whose
/// other entries all pass it, leaves the entries from `k` on.
proof fn lemma_filter_split(events: Seq<u64>, k: int, keep: spec_fn(u64) -> bool)
    requires
        0 <= k <= events.len(),
        forall|i: int| 0 <= i < k ==> !keep(#[trigger] events[i]),
        forall|i: int| k <= i < events.len() ==> keep(#[trigger] events[i]),
    ensures
        events.filter(keep) == events.skip(k),
    decreases events.len(),
{
    reveal(Seq::filter);
    if events.len() == 0 {
        assert(events.skip(k) =~= events);
    } else {
        let front = events.drop_last();
        if k == events.len() {
            lemma_filter_split(front, k - 1, keep);
            assert(front.skip(k - 1) =~= events.skip(k));
        } else {
            lemma_filter_split(front, k, keep);
            assert(front.skip(k).push(events.last()) =~= events.skip(k));
        }
    }
}

/// The change instants of the current burst, oldest first, and the length of
/// the window that bounds how far back they are kept.
pub struct EventBuffer {
    events: VecDeque<u64>,
    window: u64,
}

impl View for EventBuffer {
    type V = Seq<u64>;

    closed spec fn view(&self) -> Seq<u64> {
        self.events@
    }
}

impl EventBuffer {
    /// The length of the window.
    pub closed spec fn spec_window(&self) -> u64 {
        self.window
    }

    /// An empty buffer with the given window.
    pub fn new(window: u64) -> (buffer: Self)
        ensures
            buffer@ == Seq::<u64>::empty(),
            buffer.spec_window() == window,
    {
        Self { events: VecDeque::new(), window }
    }

    /// The length of the window.
    #[verifier::when_used_as_spec(spec_window)]
    pub fn window(&self) -> (w: u64)
        ensures
            w == self.spec_window(),
    {
        self.window
    }

    /// Records a change at `now`: entries at the front that have left the
    /// window are dropped, up to the first that has not, and `now` is appended.
    pub fn add_event(&mut self, now: u64)
        ensures
            final(self)@ == recorded(old(self)@, now, old(self).spec_window()),
            final(self).spec_window() == old(self).spec_window(),
            chronological(old(self)@) && (old(self)@.len() > 0 ==> old(self)@.last() <= now)
                ==> chronological(final(self)@) && all_within(
                final(self)@,
                now,
                old(self).spec_window(),
            ),
    {
        let ghost before = self.events@;
        let mut dropped: Ghost<nat> = Ghost(0);
        while self.events.len() > 0 && elapsed_since(now, self.events[0]) > self.window
            invariant
                self.window == old(self).window,
                dropped@ <= before.len(),
                self.events@ == before.skip(dropped@ as int),
                stale_prefix(before, now, self.window) == dropped@ + stale_prefix(
                    self.events@,
                    now,
                    self.window,
                ),
            decreases self.events@.len(),
        {
            let ghost current = self.events@;
            self.events.pop_front();
            proof {
                assert(self.events@ == current.drop_first());
                assert(current.drop_first() == before.skip(dropped@ as int + 1));
                dropped@ = dropped@ + 1;
            }
        }
        self.events.push_back(now);
        proof {
            if chronological(before) && (before.len() > 0 ==> before.last() <= now) {
                lemma_recorded_window(before, now, self.window);
            }
        }
    }

    /// Whether a run is due at `now`: the buffer holds an event, and at least
    /// `min_quiet_period` has passed since the last one.
    pub fn should_trigger(&self, now: u64, min_quiet_period: u64) -> (due: bool)
        ensures
            due == quiet_since_last(self@, now, min_quiet_period),
    {
        let n = self.events.len();
        if n == 0 {
            false
        } else {
            elapsed_since(now, self.events[n - 1]) >= min_quiet_period
        }
    }

    /// Forgets every recorded event.
    pub fn clear(&mut self)
        ensures
            final(self)@ == Seq::<u64>::empty(),
            final(self).spec_window() == old(self).spec_window(),
    {
        self.events.clear();
    }

    /// The number of recorded events.
    pub fn len(&self) -> (n: usize)
        ensures
            n == self@.len(),
    {
        self.events.len()
    }

    /// Whether no event is recorded.
    pub fn is_empty(&self) -> (empty: bool)
        ensures
            empty == (self@.len() == 0),
    {
        self.events.len() == 0
    }

    /// The instant of the last recorded event.
    pub fn last_event(&self) -> (last: Option<u64>)
        ensures
            last == (if self@.len() > 0 {
                Some(self@.last())
            } else {
                None
            }),
    {
        let n = self.events.len();
        if n == 0 {
            None
        } else {
            Some(self.events[n - 1])
        }
    }
}

} // verus!
