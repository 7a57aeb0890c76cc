use vstd::prelude::*;

use crate::event::{Event, Readiness};
use crate::setting::{already_expired, fits_kernel, setting_of, TimerSetting};
use crate::span::Span;

verus! {

/// Where a delay stands between polls.
#[derive(Clone, Copy, Debug, PartialEq, Eq)]
pub enum DelayPhase {
    /// Not yet resolved.
    Waiting,
    /// The timer was seen readable; its read readiness is being cleared.
    Clearing,
    /// Elapsed, and reported so.
    Done,
    /// An operation on the timer failed, and the failure was reported.
    Failed,
}

/// What a delay asks its caller to do next.
#[derive(Debug, PartialEq, Eq)]
pub enum DelayAction<E> {
    /// Report completion.
    Complete,
    /// Report that the delay is not ready; the reactor wakes the task later.
    Suspend,
    /// Query the read readiness of the timer handle.
    QueryReadiness,
    /// Clear the read readiness of the timer handle.
    ClearReadiness,
    /// Report this error.
    Fail(E),
    /// The delay already failed and will never complete.
    Spent,
}

/// A one-shot timer that completes once its duration has passed, or on the
/// first poll when that duration is zero.
#[derive(Clone, Copy, Debug, PartialEq, Eq)]
pub struct Delay {
    /// How the kernel timer is armed; `None` when the delay is already over
    /// and no kernel timer is used.
    pub setting: Option<TimerSetting>,
    /// Where the delay stands.
    pub phase: DelayPhase,
}

impl Delay {
    /// The delay that a call of `new` with `d` returns.
    pub open spec fn spec_new(d: Span) -> Delay {
        Delay {
            setting: if already_expired(d, None) {
                None
            } else {
                Some(setting_of(d, None))
            },
            phase: DelayPhase::Waiting,
        }
    }

    /// Whether the delay uses a kernel timer.
    pub open spec fn armed(self) -> bool {
        self.setting is Some
    }

    /// Whether `ev` is what the delay waits for: a poll, or the outcome of
    /// the action it asked for last.
    pub open spec fn accepts<E>(self, ev: Event<E>) -> bool {
        match self.phase {
            DelayPhase::Waiting => ev is Polled || (self.armed() && ev is ReadyQueried),
            DelayPhase::Clearing => ev is Cleared,
            DelayPhase::Done | DelayPhase::Failed => ev is Polled,
        }
    }

    /// The delay after `ev`, and what it asks for.
    pub open spec fn next<E>(self, ev: Event<E>) -> (Delay, DelayAction<E>)
        recommends
            self.accepts(ev),
    {
        let to = |phase: DelayPhase| Delay { setting: self.setting, phase };
        match ev {
            Event::Polled => match self.phase {
                DelayPhase::Waiting => if self.armed() {
                    (self, DelayAction::QueryReadiness)
                } else {
                    (to(DelayPhase::Done), DelayAction::Complete)
                },
                DelayPhase::Done => (self, DelayAction::Complete),
                _ => (self, DelayAction::Spent),
            },
            Event::ReadyQueried(Readiness::Readable) => (
                to(DelayPhase::Clearing),
                DelayAction::ClearReadiness,
            ),
            Event::ReadyQueried(Readiness::NotReadable) => (self, DelayAction::Suspend),
            Event::ReadyQueried(Readiness::Failed(e)) => (
                to(DelayPhase::Failed),
                DelayAction::Fail(e),
            ),
            Event::Cleared(Ok(())) => (to(DelayPhase::Done), DelayAction::Complete),
            Event::Cleared(Err(e)) => (to(DelayPhase::Failed), DelayAction::Fail(e)),
            Event::Drained(_) => (self, DelayAction::Suspend),
        }
    }

    /// The delay after the events of `evs`, taken in order for as long as
    /// each is one the delay accepts.
    pub open spec fn run<E>(self, evs: Seq<Event<E>>) -> Delay
        decreases evs.len(),
    {
        if evs.len() == 0 || !self.accepts(evs[0]) {
            self
        } else {
            self.next(evs[0]).0.run(evs.drop_first())
        }
    }

    /// A delay that ends `delay` from now. A zero delay uses no kernel
    /// timer; any other is armed to expire once, after `delay`.
    pub fn new(delay: Span) -> (r: Delay)
        requires
            delay.wf(),
            fits_kernel(delay),
        ensures
            r == Delay::spec_new(delay),
    {
        Delay { setting: TimerSetting::for_expiry(delay, None), phase: DelayPhase::Waiting }
    }

    /// Whether the delay has completed.
    pub fn is_done(&self) -> (r: bool)
        ensures
            r == (self.phase is Done),
    {
        match self.phase {
            DelayPhase::Done => true,
            _ => false,
        }
    }

    /// Takes in `ev` and says what to do next.
    pub fn step<E>(&mut self, ev: Event<E>) -> (r: DelayAction<E>)
        requires
            old(self).accepts(ev),
        ensures
            (*final(self), r) == old(self).next(ev),
            r is Complete <==> final(self).phase is Done,
            final(self).setting == old(self).setting,
    {
        match ev {
            Event::Polled => match self.phase {
                DelayPhase::Waiting => {
                    if self.setting.is_some() {
                        DelayAction::QueryReadiness
                    } else {
                        self.phase = DelayPhase::Done;
                        DelayAction::Complete
                    }
                },
                DelayPhase::Done => DelayAction::Complete,
                _ => DelayAction::Spent,
            },
            Event::ReadyQueried(Readiness::Readable) => {
                self.phase = DelayPhase::Clearing;
                DelayAction::ClearReadiness
            },
            Event::ReadyQueried(Readiness::NotReadable) => DelayAction::Suspend,
            Event::ReadyQueried(Readiness::Failed(e)) => {
                self.phase = DelayPhase::Failed;
                DelayAction::Fail(e)
            },
            Event::Cleared(Ok(())) => {
                self.phase = DelayPhase::Done;
                DelayAction::Complete
            },
            Event::Cleared(Err(e)) => {
                self.phase = DelayPhase::Failed;
                DelayAction::Fail(e)
            },
            Event::Drained(_) => DelayAction::Suspend,
        }
    }
}

/// A zero delay uses no kernel timer and completes on its first poll,
/// without suspending.
pub proof fn lemma_zero_delay_completes_at_once<E>(d: Span)
    requires
        d.wf(),
        d.total_nanos() == 0,
    ensures
        Delay::spec_new(d).setting is None,
        Delay::spec_new(d).accepts(Event::<E>::Polled),
        Delay::spec_new(d).next(Event::<E>::Polled) == (
            Delay { setting: None, phase: DelayPhase::Done },
            DelayAction::<E>::Complete,
        ),
{
}

/// Completion of an armed delay that has not yet been seen readable needs a
/// readiness query that reports the timer handle readable.
proof fn lemma_done_needs_readable<E>(s: Delay, evs: Seq<Event<E>>)
    requires
        s.armed(),
        s.phase is Waiting || s.phase is Failed,
        s.run(evs).phase is Done,
    ensures
        exists|i: int| 0 <= i < evs.len() && evs[i] == Event::<E>::ReadyQueried(Readiness::Readable),
    decreases evs.len(),
{
    let ev = evs[0];
    let t = s.next(ev).0;
    if ev != Event::<E>::ReadyQueried(Readiness::Readable) {
        lemma_done_needs_readable(t, evs.drop_first());
        let i = choose|i: int| 0 <= i < evs.drop_first().len() && evs.drop_first()[i]
            == Event::<E>::ReadyQueried(Readiness::Readable);
        assert(evs[i + 1] == evs.drop_first()[i]);
    } else {
        assert(evs[0] == Event::<E>::ReadyQueried(Readiness::Readable));
    }
}

/// A non-zero delay arms the kernel timer to expire once, exactly `d` from
/// its creation, and whatever the caller reports, it completes only after a
/// readiness query has found the timer handle readable: it never ends
/// before the kernel timer has expired.
pub proof fn lemma_delay_waits_for_expiry<E>(d: Span, evs: Seq<Event<E>>)
    requires
        d.wf(),
        fits_kernel(d),
        d.total_nanos() > 0,
    ensures
        Delay::spec_new(d).setting matches Some(t) && t.it_value.denotes(d) && t.it_interval.is_zero(),
        Delay::spec_new(d).run(evs).phase is Done ==> exists|i: int|
            0 <= i < evs.len() && evs[i] == Event::<E>::ReadyQueried(Readiness::Readable),
{
    if Delay::spec_new(d).run(evs).phase is Done {
        lemma_done_needs_readable(Delay::spec_new(d), evs);
    }
}

} // verus!
