//! Periodic actions, polled from the event loop.
//!
//! Time is a reading of a monotonic clock in nanoseconds. A ticker never reads
//! the clock itself: each poll is given the current reading and answers
//! whether the action is due.

use vstd::prelude::*;

verus! {

/// Mathematical model of a [`Ticker`].
pub struct TickerView {
    /// Clock reading at creation or at the last fire.
    pub last: nat,
    /// Least time between two fires.
    pub interval: nat,
}

impl TickerView {
    /// Time that has passed since the last fire; a reading that lies before
    /// the last fire counts as no time at all.
    pub open spec fn elapsed(self, now: nat) -> nat {
        if now >= self.last {
            (now - self.last) as nat
        } else {
            0
        }
    }

    /// Whether a poll at `now` fires.
    pub open spec fn due(self, now: nat) -> bool {
        self.elapsed(now) >= self.interval
    }

    /// The ticker after a poll at `now`.
    pub open spec fn tick(self, now: nat) -> TickerView {
        if self.due(now) {
            TickerView { last: now, interval: self.interval }
        } else {
            self
        }
    }

    /// The ticker after the polls `polls`, taken in order.
    pub open spec fn run(self, polls: Seq<nat>) -> TickerView
        decreases polls.len(),
    {
        if polls.len() == 0 {
            self
        } else {
            self.tick(polls[0]).run(polls.drop_first())
        }
    }

    /// How many of the polls `polls`, taken in order, fire.
    pub open spec fn fires(self, polls: Seq<nat>) -> nat
        decreases polls.len(),
    {
        if polls.len() == 0 {
            0
        } else {
            let rest = self.tick(polls[0]).fires(polls.drop_first());
            if self.due(polls[0]) {
                rest + 1
            } else {
                rest
            }
        }
    }
}

/// Decides on each poll whether enough time has passed to run an action.
#[derive(Debug)]
pub struct Ticker {
    last: u64,
    timeout: u64,
}

impl View for Ticker {
    type V = TickerView;

    closed spec fn view(&self) -> TickerView {
        TickerView { last: self.last as nat, interval: self.timeout as nat }
    }
}

impl Ticker {
    /// A ticker with the given interval whose last fire is the time of its
    /// creation, `now`.
    pub fn new(period: u64, now: u64) -> (ticker: Ticker)
        ensures
            ticker@ == (TickerView { last: now as nat, interval: period as nat }),
    {
        Ticker { last: now, timeout: period }
    }

    /// The interval this ticker was created with.
    pub fn interval(&self) -> (period: u64)
        ensures
            period == self@.interval,
    {
        self.timeout
    }

    /// The clock reading of the last fire, or of the creation if there was none.
    pub fn last_fire(&self) -> (last: u64)
        ensures
            last == self@.last,
    {
        self.last
    }

    /// Polls the ticker at clock reading `now`. Returns `true` when the
    /// interval has elapsed since the last fire; the caller then runs the
    /// action, and the last fire becomes `now`. Otherwise nothing changes.
    /// Missed intervals are not made up for: however long the ticker was not
    /// polled, one poll fires once.
    pub fn tick(&mut self, now: u64) -> (fired: bool)
        ensures
            fired == old(self)@.due(now as nat),
            final(self)@ == old(self)@.tick(now as nat),
    {
        let elapsed: u64 = if now >= self.last {
            now - self.last
        } else {
            0
        };
        if elapsed >= self.timeout {
            self.last = now;
            true
        } else {
            false
        }
    }
}

/// Polls that all come before the interval has elapsed never fire, and leave
/// the ticker as it was.
pub proof fn lemma_no_fire_before_interval(ticker: TickerView, polls: Seq<nat>)
    requires
        forall|i: int|
            0 <= i < polls.len() ==> ticker.elapsed(#[trigger] polls[i]) < ticker.interval,
    ensures
        ticker.fires(polls) == 0,
        ticker.run(polls) == ticker,
    decreases polls.len(),
{
    if polls.len() > 0 {
        assert(!ticker.due(polls[0]));
        let rest = polls.drop_first();
        assert forall|i: int| 0 <= i < rest.len() implies ticker.elapsed(#[trigger] rest[i])
            < ticker.interval by {
            assert(rest[i] == polls[i + 1]);
        }
        lemma_no_fire_before_interval(ticker, rest);
    }
}

/// Once the interval has elapsed, the next poll fires, and it fires once
/// however many intervals have gone by: polls that follow it by less than one
/// interval do not fire again.
pub proof fn lemma_fire_coalesces(ticker: TickerView, now: nat, later: Seq<nat>)
    requires
        ticker.elapsed(now) >= ticker.interval,
        forall|i: int|
            0 <= i < later.len() ==> ticker.tick(now).elapsed(#[trigger] later[i])
                < ticker.interval,
    ensures
        ticker.due(now),
        ticker.tick(now).last == now,
        ticker.fires(seq![now] + later) == 1,
        ticker.run(seq![now] + later) == ticker.tick(now),
{
    let polls = seq![now] + later;
    assert(polls[0] == now);
    assert(polls.drop_first() =~= later);
    lemma_no_fire_before_interval(ticker.tick(now), later);
}

} // verus!
