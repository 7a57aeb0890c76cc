use vstd::prelude::*;

use crate::span::Span;

verus! {

/// A point or period as the kernel timer takes it: signed whole seconds and
/// nanoseconds.
#[derive(Clone, Copy, Debug, PartialEq, Eq)]
pub struct TimeSpec {
    pub tv_sec: i64,
    pub tv_nsec: i64,
}

/// What arming a kernel timer asks for: the first expiration, relative to
/// now, and the period of the later ones (zero for none).
#[derive(Clone, Copy, Debug, PartialEq, Eq)]
pub struct TimerSetting {
    pub it_value: TimeSpec,
    pub it_interval: TimeSpec,
}

/// Whether a span fits the kernel's signed seconds field.
pub open spec fn fits_kernel(s: Span) -> bool {
    s.secs <= i64::MAX
}

impl TimeSpec {
    /// Whether the value stands for the span `s`.
    pub open spec fn denotes(self, s: Span) -> bool {
        self.tv_sec == s.secs && self.tv_nsec == s.nanos
    }

    /// Whether both fields are zero.
    pub open spec fn is_zero(self) -> bool {
        self.tv_sec == 0 && self.tv_nsec == 0
    }

    /// The kernel form of `s`.
    pub fn from_span(s: Span) -> (r: TimeSpec)
        requires
            s.wf(),
            fits_kernel(s),
        ensures
            r.denotes(s),
    {
        TimeSpec { tv_sec: s.secs as i64, tv_nsec: s.nanos as i64 }
    }

    /// No time at all.
    pub fn zero() -> (r: TimeSpec)
        ensures
            r.is_zero(),
    {
        TimeSpec { tv_sec: 0, tv_nsec: 0 }
    }
}

/// Whether a timer asked for with a first expiration after `initial` and
/// the optional period `recurring` needs no kernel timer: it has already
/// expired.
pub open spec fn already_expired(initial: Span, recurring: Option<Span>) -> bool {
    &&& initial.total_nanos() == 0
    &&& match recurring {
        None => true,
        Some(p) => p.total_nanos() == 0,
    }
}

/// The setting that arms a timer with a first expiration after `initial`
/// and the optional period `recurring`.
pub open spec fn setting_of(initial: Span, recurring: Option<Span>) -> TimerSetting {
    TimerSetting {
        it_value: TimeSpec { tv_sec: initial.secs as i64, tv_nsec: initial.nanos as i64 },
        it_interval: match recurring {
            None => TimeSpec { tv_sec: 0, tv_nsec: 0 },
            Some(p) => TimeSpec { tv_sec: p.secs as i64, tv_nsec: p.nanos as i64 },
        },
    }
}

impl TimerSetting {
    /// Whether the kernel would take this setting as a request to disarm.
    pub open spec fn disarms(self) -> bool {
        self.it_value.is_zero() && self.it_interval.is_zero()
    }

    /// The kernel setting for a timer that first expires after `initial`
    /// and then, if `recurring` is given, every `recurring`. `None` when
    /// nothing is to be waited for: such a timer has already expired, and an
    /// all-zero setting would disarm the kernel timer instead.
    pub fn for_expiry(initial: Span, recurring: Option<Span>) -> (r: Option<TimerSetting>)
        requires
            initial.wf(),
            fits_kernel(initial),
            recurring matches Some(p) ==> p.wf() && fits_kernel(p),
        ensures
            r is None <==> already_expired(initial, recurring),
            r matches Some(t) ==> t == setting_of(initial, recurring) && !t.disarms(),
    {
        let period_zero = match recurring {
            None => true,
            Some(p) => p.is_zero(),
        };
        if initial.is_zero() && period_zero {
            return None;
        }
        let it_interval = match recurring {
            None => TimeSpec::zero(),
            Some(p) => TimeSpec::from_span(p),
        };
        Some(TimerSetting { it_value: TimeSpec::from_span(initial), it_interval })
    }
}

} // verus!
