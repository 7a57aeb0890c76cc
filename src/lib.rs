//! Monotonic-clock timers for a readiness-polled scheduler: a one-shot
//! [`Delay`] and a repeating [`Interval`].
//!
//! The types here hold every decision the timers make: how a duration is
//! handed to the kernel timer, when a zero duration skips the kernel
//! altogether, and how each poll reacts to the readiness reported for the
//! timer handle. The handle itself and the reactor calls are made by the
//! caller, which performs each returned action and reports its outcome back.
pub mod delay;
pub mod event;
pub mod interval;
pub mod setting;
pub mod span;

pub use delay::{Delay, DelayAction, DelayPhase};
pub use event::{Drain, Event, Readiness};
pub use interval::{Interval, IntervalAction, IntervalPhase};
pub use setting::{TimeSpec, TimerSetting};
pub use span::Span;
