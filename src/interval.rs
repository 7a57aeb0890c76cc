use vstd::prelude::*;

use crate::event::{is_failure, Drain, Event, Readiness};
use crate::setting::{already_expired, fits_kernel, setting_of, TimerSetting};
use crate::span::Span;

verus! {

/// Where an interval stands between polls.
#[derive(Clone, Copy, Debug, PartialEq, Eq)]
pub enum IntervalPhase {
    /// Waiting for the next expiration.
    Waiting,
    /// The timer was seen readable; its expiration counter is being read.
    Draining,
    /// The counter had nothing to read; the stale read readiness is being
    /// cleared.
    Clearing,
    /// An operation on the timer failed; the sequence is over.
    Ended,
}

/// What an interval asks its caller to do next.
#[derive(Debug, PartialEq, Eq)]
pub enum IntervalAction<E> {
    /// Yield one item.
    Yield,
    /// Report that no item is ready; the reactor wakes the task later.
    Suspend,
    /// Query the read readiness of the timer handle.
    QueryReadiness,
    /// Read the eight-byte expiration counter off the timer handle.
    Drain,
    /// Clear the read readiness of the timer handle.
    ClearReadiness,
    /// Report this error; the sequence ends with it.
    Fail(E),
    /// Report that the sequence has ended.
    End,
}

/// A repeating timer that yields once each time its period passes, or on
/// every poll when that period is zero.
#[derive(Clone, Copy, Debug, PartialEq, Eq)]
pub struct Interval {
    /// How the kernel timer is armed; `None` when the period is zero and no
    /// kernel timer is used.
    pub setting: Option<TimerSetting>,
    /// Where the interval stands.
    pub phase: IntervalPhase,
}

impl Interval {
    /// The interval that a call of `new` with `d` returns.
    pub open spec fn spec_new(d: Span) -> Interval {
        Interval {
            setting: if already_expired(d, Some(d)) {
                None
            } else {
                Some(setting_of(d, Some(d)))
            },
            phase: IntervalPhase::Waiting,
        }
    }

    /// Whether the interval uses a kernel timer.
    pub open spec fn armed(self) -> bool {
        self.setting is Some
    }

    /// Whether `ev` is what the interval waits for: a poll, or the outcome
    /// of the action it asked for last.
    pub open spec fn accepts<E>(self, ev: Event<E>) -> bool {
        match self.phase {
            IntervalPhase::Waiting => ev is Polled || (self.armed() && ev is ReadyQueried),
            IntervalPhase::Draining => ev is Drained,
            IntervalPhase::Clearing => ev is Cleared,
            IntervalPhase::Ended => ev is Polled,
        }
    }

    /// The interval after `ev`, and what it asks for.
    pub open spec fn next<E>(self, ev: Event<E>) -> (Interval, IntervalAction<E>)
        recommends
            self.accepts(ev),
    {
        let to = |phase: IntervalPhase| Interval { setting: self.setting, phase };
        match ev {
            Event::Polled => match self.phase {
                IntervalPhase::Ended => (self, IntervalAction::End),
                _ => if self.armed() {
                    (self, IntervalAction::QueryReadiness)
                } else {
                    (self, IntervalAction::Yield)
                },
            },
            Event::ReadyQueried(Readiness::Readable) => (
                to(IntervalPhase::Draining),
                IntervalAction::Drain,
            ),
            Event::ReadyQueried(Readiness::NotReadable) => (self, IntervalAction::Suspend),
            Event::ReadyQueried(Readiness::Failed(e)) => (
                to(IntervalPhase::Ended),
                IntervalAction::Fail(e),
            ),
            Event::Drained(Drain::Drained) => (to(IntervalPhase::Waiting), IntervalAction::Yield),
            Event::Drained(Drain::WouldBlock) => (
                to(IntervalPhase::Clearing),
                IntervalAction::ClearReadiness,
            ),
            Event::Drained(Drain::Failed(e)) => (to(IntervalPhase::Ended), IntervalAction::Fail(e)),
            Event::Cleared(Ok(())) => (to(IntervalPhase::Waiting), IntervalAction::Suspend),
            Event::Cleared(Err(e)) => (to(IntervalPhase::Ended), IntervalAction::Fail(e)),
        }
    }

    /// The interval after the events of `evs`, taken in order for as long
    /// as each is one the interval accepts.
    pub open spec fn run<E>(self, evs: Seq<Event<E>>) -> Interval
        decreases evs.len(),
    {
        if evs.len() == 0 || !self.accepts(evs[0]) {
            self
        } else {
            self.next(evs[0]).0.run(evs.drop_first())
        }
    }

    /// How many items the interval yields over the events of `evs`, taken
    /// as `run` takes them.
    pub open spec fn yields<E>(self, evs: Seq<Event<E>>) -> nat
        decreases evs.len(),
    {
        if evs.len() == 0 || !self.accepts(evs[0]) {
            0
        } else {
            let (t, a) = self.next(evs[0]);
            (if a is Yield {
                1nat
            } else {
                0nat
            }) + t.yields(evs.drop_first())
        }
    }

    /// An interval that yields `interval` from now and every `interval`
    /// after. A zero interval uses no kernel timer; any other arms one whose
    /// first expiration and period are both `interval`.
    pub fn new(interval: Span) -> (r: Interval)
        requires
            interval.wf(),
            fits_kernel(interval),
        ensures
            r == Interval::spec_new(interval),
    {
        Interval {
            setting: TimerSetting::for_expiry(interval, Some(interval)),
            phase: IntervalPhase::Waiting,
        }
    }

    /// Whether the sequence has ended.
    pub fn is_ended(&self) -> (r: bool)
        ensures
            r == (self.phase is Ended),
    {
        match self.phase {
            IntervalPhase::Ended => true,
            _ => false,
        }
    }

    /// Takes in `ev` and says what to do next.
    pub fn step<E>(&mut self, ev: Event<E>) -> (r: IntervalAction<E>)
        requires
            old(self).accepts(ev),
        ensures
            (*final(self), r) == old(self).next(ev),
            final(self).setting == old(self).setting,
    {
        match ev {
            Event::Polled => match self.phase {
                IntervalPhase::Ended => IntervalAction::End,
                _ => {
                    if self.setting.is_some() {
                        IntervalAction::QueryReadiness
                    } else {
                        IntervalAction::Yield
                    }
                },
            },
            Event::ReadyQueried(Readiness::Readable) => {
                self.phase = IntervalPhase::Draining;
                IntervalAction::Drain
            },
            Event::ReadyQueried(Readiness::NotReadable) => IntervalAction::Suspend,
            Event::ReadyQueried(Readiness::Failed(e)) => {
                self.phase = IntervalPhase::Ended;
                IntervalAction::Fail(e)
            },
            Event::Drained(Drain::Drained) => {
                self.phase = IntervalPhase::Waiting;
                IntervalAction::Yield
            },
            Event::Drained(Drain::WouldBlock) => {
                self.phase = IntervalPhase::Clearing;
                IntervalAction::ClearReadiness
            },
            Event::Drained(Drain::Failed(e)) => {
                self.phase = IntervalPhase::Ended;
                IntervalAction::Fail(e)
            },
            Event::Cleared(Ok(())) => {
                self.phase = IntervalPhase::Waiting;
                IntervalAction::Suspend
            },
            Event::Cleared(Err(e)) => {
                self.phase = IntervalPhase::Ended;
                IntervalAction::Fail(e)
            },
        }
    }
}

/// How many events of `evs` report an expiration counter read off the
/// timer handle.
pub open spec fn expirations_read<E>(evs: Seq<Event<E>>) -> nat
    decreases evs.len(),
{
    if evs.len() == 0 {
        0
    } else {
        (if evs[0] == Event::<E>::Drained(Drain::Drained) {
            1nat
        } else {
            0nat
        }) + expirations_read(evs.drop_first())
    }
}

/// An armed interval yields no more items than expirations were read.
proof fn lemma_yields_bounded_by_reads<E>(s: Interval, evs: Seq<Event<E>>)
    requires
        s.armed(),
    ensures
        s.yields(evs) <= expirations_read(evs),
    decreases evs.len(),
{
    if evs.len() > 0 {
        lemma_yields_bounded_by_reads(s.next(evs[0]).0, evs.drop_first());
    }
}

/// An interval that has not ended ends only on a reported failure.
proof fn lemma_end_needs_failure<E>(s: Interval, evs: Seq<Event<E>>)
    requires
        !(s.phase is Ended),
        s.run(evs).phase is Ended,
    ensures
        exists|i: int| 0 <= i < evs.len() && is_failure(evs[i]),
    decreases evs.len(),
{
    let ev = evs[0];
    let t = s.next(ev).0;
    if t.phase is Ended {
        assert(is_failure(evs[0]));
    } else {
        lemma_end_needs_failure(t, evs.drop_first());
        let i = choose|i: int| 0 <= i < evs.drop_first().len() && is_failure(evs.drop_first()[i]);
        assert(evs[i + 1] == evs.drop_first()[i]);
    }
}

/// A non-zero interval arms the kernel timer to expire first `d` after its
/// creation and then every `d`; whatever the caller reports, each item it
/// yields stands for one read of the expiration counter, and the sequence
/// ends only when an operation on the timer has failed.
pub proof fn lemma_interval_follows_expirations<E>(d: Span, evs: Seq<Event<E>>)
    requires
        d.wf(),
        fits_kernel(d),
        d.total_nanos() > 0,
    ensures
        Interval::spec_new(d).setting matches Some(t) && t.it_value.denotes(d) && t.it_interval.denotes(d),
        Interval::spec_new(d).yields(evs) <= expirations_read(evs),
        Interval::spec_new(d).run(evs).phase is Ended ==> exists|i: int|
            0 <= i < evs.len() && is_failure(evs[i]),
{
    lemma_yields_bounded_by_reads(Interval::spec_new(d), evs);
    if Interval::spec_new(d).run(evs).phase is Ended {
        lemma_end_needs_failure(Interval::spec_new(d), evs);
    }
}

/// An unarmed waiting interval yields on every poll and stays as it is.
proof fn lemma_unarmed_yields_each_poll<E>(s: Interval, evs: Seq<Event<E>>)
    requires
        s.setting is None,
        s.phase is Waiting,
        forall|i: int| 0 <= i < evs.len() ==> evs[i] == Event::<E>::Polled,
    ensures
        s.run(evs) == s,
        s.yields(evs) == evs.len(),
    decreases evs.len(),
{
    if evs.len() > 0 {
        assert(evs[0] == Event::<E>::Polled);
        let rest = evs.drop_first();
        assert forall|i: int| 0 <= i < rest.len() implies rest[i] == Event::<E>::Polled by {
            assert(rest[i] == evs[i + 1]);
        }
        lemma_unarmed_yields_each_poll(s, rest);
    }
}

/// A zero interval uses no kernel timer and yields an item on every poll,
/// without ever suspending: over any number of polls it yields that many
/// items.
pub proof fn lemma_zero_interval_yields_every_poll<E>(d: Span, evs: Seq<Event<E>>)
    requires
        d.wf(),
        d.total_nanos() == 0,
        forall|i: int| 0 <= i < evs.len() ==> evs[i] == Event::<E>::Polled,
    ensures
        Interval::spec_new(d).setting is None,
        Interval::spec_new(d).next(Event::<E>::Polled) == (
            Interval::spec_new(d),
            IntervalAction::<E>::Yield,
        ),
        Interval::spec_new(d).run(evs) == Interval::spec_new(d),
        Interval::spec_new(d).yields(evs) == evs.len(),
{
    lemma_unarmed_yields_each_poll(Interval::spec_new(d), evs);
}

} // verus!
