use vstd::prelude::*;

use crate::config::HoverConfig;
use crate::geometry::{Point, Rect};
use crate::hover::{displays_valid, in_hover_zone, pointer_in_zone, zone_sizes_valid};

verus! {

/// The confirmed hover signal and the instant (milliseconds on a monotonic
/// clock) of its last confirmed or attempted transition.
#[derive(Clone, Copy, Debug, PartialEq, Eq, Structural)]
pub struct DebounceState {
    pub inside: bool,
    pub last_transition: u64,
}

/// Milliseconds from `from` to `to`, zero when `to` is earlier.
pub open spec fn elapsed(from: u64, to: u64) -> int {
    if to >= from {
        to - from
    } else {
        0
    }
}

/// The wait that a transition towards `inside` must have served.
pub open spec fn delay_for(inside: bool, open_ms: u64, close_ms: u64) -> u64 {
    if inside {
        open_ms
    } else {
        close_ms
    }
}

/// One sample against the state: the next state and the transition it
/// confirms, if any. A sample that agrees with the confirmed state changes
/// nothing; one that disagrees confirms the flip once the direction's delay
/// has elapsed, and otherwise restarts the wait from `now`.
pub open spec fn step(
    s: DebounceState,
    sample_inside: bool,
    now: u64,
    open_ms: u64,
    close_ms: u64,
) -> (DebounceState, Option<bool>) {
    if sample_inside == s.inside {
        (s, None)
    } else if elapsed(s.last_transition, now) >= delay_for(sample_inside, open_ms, close_ms) {
        (DebounceState { inside: sample_inside, last_transition: now }, Some(sample_inside))
    } else {
        (DebounceState { inside: s.inside, last_transition: now }, None)
    }
}

impl DebounceState {
    /// The state at monitor start: not hovering, waiting from `now`.
    pub fn new(now: u64) -> (r: Self)
        ensures
            r == (DebounceState { inside: false, last_transition: now }),
    {
        DebounceState { inside: false, last_transition: now }
    }

    /// Feeds one classified sample taken at `now` and returns the confirmed
    /// transition, if this sample confirms one.
    pub fn observe(&mut self, sample_inside: bool, now: u64, open_ms: u64, close_ms: u64) -> (r:
        Option<bool>)
        ensures
            (*final(self), r) == step(*old(self), sample_inside, now, open_ms, close_ms),
    {
        if sample_inside == self.inside {
            return None;
        }
        let waited = if now >= self.last_transition {
            now - self.last_transition
        } else {
            0
        };
        let delay = if sample_inside {
            open_ms
        } else {
            close_ms
        };
        if waited >= delay {
            self.inside = sample_inside;
            self.last_transition = now;
            Some(sample_inside)
        } else {
            self.last_transition = now;
            None
        }
    }

    /// Classifies a pointer sample against its hover zone and feeds it, with
    /// the configured open and close delays.
    pub fn handle_pointer(
        &mut self,
        pointer: Point,
        expanded: bool,
        displays: &Vec<Rect>,
        hover: &HoverConfig,
        now: u64,
    ) -> (r: Option<bool>)
        requires
            displays_valid(displays@),
            zone_sizes_valid(*hover),
        ensures
            (*final(self), r) == step(
                *old(self),
                in_hover_zone(pointer, expanded, displays@, *hover),
                now,
                hover.expand_delay_ms.value,
                hover.collapse_delay_ms.value,
            ),
    {
        let inside = pointer_in_zone(pointer, expanded, displays, hover);
        self.observe(inside, now, hover.expand_delay_ms.value, hover.collapse_delay_ms.value)
    }
}

/// Feeds `samples` (classification, time) in order: the final state and the
/// confirmed transitions, each with the time of the sample that confirmed it.
pub open spec fn run(
    s: DebounceState,
    samples: Seq<(bool, u64)>,
    open_ms: u64,
    close_ms: u64,
) -> (DebounceState, Seq<(bool, u64)>)
    decreases samples.len(),
{
    if samples.len() == 0 {
        (s, Seq::empty())
    } else {
        let (mid, events) = run(s, samples.drop_last(), open_ms, close_ms);
        let (next, emitted) = step(mid, samples.last().0, samples.last().1, open_ms, close_ms);
        match emitted {
            Some(v) => (next, events.push((v, samples.last().1))),
            None => (next, events),
        }
    }
}

/// Sample times never go back, and none precedes the state's own instant.
pub open spec fn monotone(start: u64, samples: Seq<(bool, u64)>) -> bool {
    &&& forall|i: int| 0 <= i < samples.len() ==> start <= #[trigger] samples[i].1
    &&& forall|i: int, j: int| 0 <= i <= j < samples.len() ==> #[trigger] samples[i].1
        <= #[trigger] samples[j].1
}

/// The instant of the last confirmed transition, or the start.
pub open spec fn last_change(s: DebounceState, events: Seq<(bool, u64)>) -> u64 {
    if events.len() == 0 {
        s.last_transition
    } else {
        events.last().1
    }
}

/// The time of the latest sample, or the start.
pub open spec fn latest(s: DebounceState, samples: Seq<(bool, u64)>) -> u64 {
    if samples.len() == 0 {
        s.last_transition
    } else {
        samples.last().1
    }
}

proof fn lemma_run_alternates(s: DebounceState, samples: Seq<(bool, u64)>, open_ms: u64, close_ms: u64)
    ensures
        ({
            let (fin, events) = run(s, samples, open_ms, close_ms);
            &&& events.len() == 0 ==> fin.inside == s.inside
            &&& events.len() > 0 ==> fin.inside == events.last().0
            &&& events.len() > 0 ==> events[0].0 != s.inside
            &&& forall|i: int| 0 <= i < events.len() - 1 ==> #[trigger] events[i].0 != events[i + 1].0
        }),
    decreases samples.len(),
{
    if samples.len() > 0 {
        lemma_run_alternates(s, samples.drop_last(), open_ms, close_ms);
        let (mid, events) = run(s, samples.drop_last(), open_ms, close_ms);
        let (next, emitted) = step(mid, samples.last().0, samples.last().1, open_ms, close_ms);
        if let Some(v) = emitted {
            let all = events.push((v, samples.last().1));
            assert forall|i: int| 0 <= i < all.len() - 1 implies #[trigger] all[i].0 != all[i + 1].0 by {
                if i < events.len() - 1 {
                    assert(all[i] == events[i] && all[i + 1] == events[i + 1]);
                } else {
                    assert(all[i] == events.last());
                }
            }
            if events.len() > 0 {
                assert(all[0] == events[0]);
            }
        }
    }
}

proof fn lemma_run_waits(s: DebounceState, samples: Seq<(bool, u64)>, open_ms: u64, close_ms: u64)
    requires
        monotone(s.last_transition, samples),
    ensures
        ({
            let (fin, events) = run(s, samples, open_ms, close_ms);
            &&& last_change(s, events) <= fin.last_transition <= latest(s, samples)
            &&& forall|i: int|
                0 <= i < events.len() ==> #[trigger] events[i].1 - (if i == 0 {
                    s.last_transition
                } else {
                    events[i - 1].1
                }) >= delay_for(events[i].0, open_ms, close_ms)
        }),
    decreases samples.len(),
{
    if samples.len() > 0 {
        let prefix = samples.drop_last();
        assert forall|i: int| 0 <= i < prefix.len() implies s.last_transition <= #[trigger] prefix[i].1 by {
            assert(prefix[i] == samples[i]);
        }
        assert forall|i: int, j: int| 0 <= i <= j < prefix.len() implies #[trigger] prefix[i].1
            <= #[trigger] prefix[j].1 by {
            assert(prefix[i] == samples[i] && prefix[j] == samples[j]);
        }
        lemma_run_waits(s, prefix, open_ms, close_ms);
        let (mid, events) = run(s, prefix, open_ms, close_ms);
        let now = samples.last().1;
        assert(latest(s, prefix) <= now) by {
            if prefix.len() > 0 {
                assert(prefix.last() == samples[prefix.len() - 1]);
            }
        }
        let (next, emitted) = step(mid, samples.last().0, now, open_ms, close_ms);
        if let Some(v) = emitted {
            let all = events.push((v, now));
            assert(last_change(s, events) == (if events.len() == 0 {
                s.last_transition
            } else {
                all[events.len() - 1].1
            }));
            assert forall|i: int|
                0 <= i < all.len() implies #[trigger] all[i].1 - (if i == 0 {
                    s.last_transition
                } else {
                    all[i - 1].1
                }) >= delay_for(all[i].0, open_ms, close_ms) by {
                if i < events.len() {
                    assert(all[i] == events[i]);
                    if i > 0 {
                        assert(all[i - 1] == events[i - 1]);
                    }
                }
            }
        }
    }
}

/// Whatever the samples, the confirmed transitions alternate: the first one
/// leaves the initial state, and no two consecutive ones carry the same value.
pub proof fn transitions_alternate(
    s: DebounceState,
    samples: Seq<(bool, u64)>,
    open_ms: u64,
    close_ms: u64,
)
    ensures
        ({
            let events = run(s, samples, open_ms, close_ms).1;
            &&& events.len() > 0 ==> events[0].0 != s.inside
            &&& forall|i: int| 0 <= i < events.len() - 1 ==> #[trigger] events[i].0 != events[i + 1].0
        }),
{
    lemma_run_alternates(s, samples, open_ms, close_ms);
}

/// On a clock that does not go back, each confirmed transition comes at
/// least its direction's delay (open when entering, close when leaving)
/// after the previous confirmed transition, or after the start for the first.
pub proof fn transitions_wait_their_delay(
    s: DebounceState,
    samples: Seq<(bool, u64)>,
    open_ms: u64,
    close_ms: u64,
)
    requires
        monotone(s.last_transition, samples),
    ensures
        ({
            let events = run(s, samples, open_ms, close_ms).1;
            forall|i: int|
                0 <= i < events.len() ==> #[trigger] events[i].1 - (if i == 0 {
                    s.last_transition
                } else {
                    events[i - 1].1
                }) >= delay_for(events[i].0, open_ms, close_ms)
        }),
{
    lemma_run_waits(s, samples, open_ms, close_ms);
}

} // verus!
