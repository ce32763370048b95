//! The one-shot countdown that delays the crab's appearance.
//!
//! Time is counted in whole microseconds. A timer is either idle or holds a
//! remainder; a tick that uses the remainder up clears the timer and reports
//! one [`SpawnEvent`]. Once cleared, a timer stays idle until it is armed
//! again.

use vstd::prelude::*;

verus! {

/// Delay between entering a gameplay frame and the crab's appearance: two seconds.
pub const SPAWN_DELAY_MICROS: u64 = 2_000_000;

/// What a timer reports on the tick that uses it up.
#[derive(Clone, Copy, Debug, PartialEq, Eq, Structural)]
pub struct SpawnEvent;

/// The remainder after `elapsed` has passed: idle stays idle, a remainder
/// that is used up becomes idle, any other remainder shrinks by `elapsed`.
pub open spec fn remaining_after(remaining: Option<nat>, elapsed: nat) -> Option<nat> {
    match remaining {
        Some(r) if elapsed < r => Some((r - elapsed) as nat),
        _ => None,
    }
}

/// Whether a tick of `elapsed` uses up the remainder.
pub open spec fn expires(remaining: Option<nat>, elapsed: nat) -> bool {
    remaining matches Some(r) && elapsed >= r
}

/// A one-shot countdown.
#[derive(Clone, Copy, Debug, PartialEq, Eq)]
pub struct SpawnTimer {
    remaining: Option<u64>,
}

impl View for SpawnTimer {
    type V = Option<nat>;

    /// `None` while idle, else the microseconds left.
    closed spec fn view(&self) -> Option<nat> {
        match self.remaining {
            Some(r) => Some(r as nat),
            None => None,
        }
    }
}

impl SpawnTimer {
    /// An idle timer.
    pub fn idle() -> (timer: Self)
        ensures
            timer@ == None::<nat>,
    {
        SpawnTimer { remaining: None }
    }

    /// Arms the timer with `delay` microseconds, replacing whatever it held.
    pub fn start(&mut self, delay: u64)
        ensures
            final(self)@ == Some(delay as nat),
    {
        self.remaining = Some(delay);
    }

    /// Whether a countdown is running.
    pub fn is_active(&self) -> (active: bool)
        ensures
            active == (self@ is Some),
    {
        self.remaining.is_some()
    }

    /// The microseconds left, if a countdown is running.
    pub fn remaining(&self) -> (left: Option<u64>)
        ensures
            self@ == (match left {
                Some(r) => Some(r as nat),
                None => None,
            }),
    {
        self.remaining
    }

    /// Lets `elapsed` microseconds pass. An idle timer stays idle and
    /// reports nothing. A running one either keeps the part of its remainder
    /// that `elapsed` did not use, or, once nothing is left, clears itself and
    /// reports the one event of this activation.
    pub fn tick(&mut self, elapsed: u64) -> (event: Option<SpawnEvent>)
        ensures
            final(self)@ == remaining_after(old(self)@, elapsed as nat),
            (event is Some) == expires(old(self)@, elapsed as nat),
    {
        match self.remaining {
            Some(r) => {
                if elapsed >= r {
                    self.remaining = None;
                    Some(SpawnEvent)
                } else {
                    self.remaining = Some(r - elapsed);
                    None
                }
            },
            None => None,
        }
    }
}

/// The sum of a sequence of elapsed times.
pub open spec fn total(deltas: Seq<nat>) -> nat
    decreases deltas.len(),
{
    if deltas.len() == 0 {
        0
    } else {
        total(deltas.drop_last()) + deltas.last()
    }
}

/// The remainder after the ticks `deltas` have passed, in order.
pub open spec fn remaining_after_all(remaining: Option<nat>, deltas: Seq<nat>) -> Option<nat>
    decreases deltas.len(),
{
    if deltas.len() == 0 {
        remaining
    } else {
        remaining_after(remaining_after_all(remaining, deltas.drop_last()), deltas.last())
    }
}

/// Whether tick number `i` of `deltas` (counted from zero) reports an event.
pub open spec fn fires_at(remaining: Option<nat>, deltas: Seq<nat>, i: int) -> bool
    recommends
        0 <= i < deltas.len(),
{
    expires(remaining_after_all(remaining, deltas.take(i)), deltas[i])
}

/// How many events the ticks `deltas` report.
pub open spec fn events(remaining: Option<nat>, deltas: Seq<nat>) -> nat
    decreases deltas.len(),
{
    if deltas.len() == 0 {
        0
    } else {
        events(remaining, deltas.drop_last()) + if fires_at(
            remaining,
            deltas,
            deltas.len() - 1,
        ) {
            1nat
        } else {
            0nat
        }
    }
}

/// Sums of longer prefixes are no smaller.
pub proof fn lemma_total_monotonic(deltas: Seq<nat>, i: int, j: int)
    requires
        0 <= i <= j <= deltas.len(),
    ensures
        total(deltas.take(i)) <= total(deltas.take(j)),
    decreases j - i,
{
    if i < j {
        lemma_total_monotonic(deltas, i, j - 1);
        assert(deltas.take(j).drop_last() == deltas.take(j - 1));
    }
}

/// An idle timer never reports anything, whatever time passes.
pub proof fn lemma_idle_stays_silent(deltas: Seq<nat>)
    ensures
        remaining_after_all(None, deltas) == None::<nat>,
        events(None, deltas) == 0,
        forall|i: int| 0 <= i < deltas.len() ==> !fires_at(None, deltas, i),
    decreases deltas.len(),
{
    if deltas.len() > 0 {
        lemma_idle_stays_silent(deltas.drop_last());
        assert forall|i: int| 0 <= i < deltas.len() implies !fires_at(None, deltas, i) by {
            lemma_idle_stays_silent(deltas.take(i));
        }
    }
}

/// While the ticks add up to less than the delay, the timer has reported
/// nothing and holds what is left of the delay.
pub proof fn lemma_no_event_before_expiry(delay: nat, deltas: Seq<nat>)
    requires
        total(deltas) < delay,
    ensures
        remaining_after_all(Some(delay), deltas) == Some((delay - total(deltas)) as nat),
        events(Some(delay), deltas) == 0,
        forall|i: int| 0 <= i < deltas.len() ==> !fires_at(Some(delay), deltas, i),
    decreases deltas.len(),
{
    if deltas.len() > 0 {
        let front = deltas.drop_last();
        lemma_no_event_before_expiry(delay, front);
        assert forall|i: int| 0 <= i < deltas.len() implies !fires_at(Some(delay), deltas, i) by {
            lemma_total_monotonic(deltas, i, i + 1);
            lemma_total_monotonic(deltas, i + 1, deltas.len() as int);
            assert(deltas.take(deltas.len() as int) == deltas);
            assert(deltas.take(i + 1).drop_last() == deltas.take(i));
            lemma_no_event_before_expiry(delay, deltas.take(i));
        }
    }
}

/// Once the ticks add up to the delay or more, the timer has reported exactly
/// one event and is idle. The event came on tick `k`, the first tick at which
/// the running sum reached the delay; no other tick reported anything.
pub proof fn lemma_one_event_at_expiry(delay: nat, deltas: Seq<nat>) -> (k: int)
    requires
        delay > 0,
        total(deltas) >= delay,
    ensures
        0 <= k < deltas.len(),
        total(deltas.take(k)) < delay <= total(deltas.take(k + 1)),
        fires_at(Some(delay), deltas, k),
        forall|i: int| 0 <= i < deltas.len() && i != k ==> !fires_at(Some(delay), deltas, i),
        events(Some(delay), deltas) == 1,
        remaining_after_all(Some(delay), deltas) == None::<nat>,
    decreases deltas.len(),
{
    let last = deltas.len() - 1;
    let front = deltas.drop_last();
    assert(deltas.take(last + 1) == deltas);
    if total(front) < delay {
        lemma_no_event_before_expiry(delay, front);
        assert forall|i: int| 0 <= i < deltas.len() && i != last implies !fires_at(
            Some(delay),
            deltas,
            i,
        ) by {
            assert(deltas.take(i) == front.take(i));
            assert(fires_at(Some(delay), front, i) == fires_at(Some(delay), deltas, i));
        }
        last
    } else {
        let k = lemma_one_event_at_expiry(delay, front);
        assert(deltas.take(k) == front.take(k));
        assert(deltas.take(k + 1) == front.take(k + 1));
        assert forall|i: int| 0 <= i < deltas.len() && i != k implies !fires_at(
            Some(delay),
            deltas,
            i,
        ) by {
            if i < last {
                assert(deltas.take(i) == front.take(i));
                assert(fires_at(Some(delay), front, i) == fires_at(Some(delay), deltas, i));
            }
        }
        k
    }
}

} // verus!
