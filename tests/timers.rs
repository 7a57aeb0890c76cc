use tokio_timerfd::span::NANOS_PER_SEC;
use tokio_timerfd::{
    Delay, DelayAction, DelayPhase, Drain, Event, Interval, IntervalAction, IntervalPhase,
    Readiness, Span, TimeSpec, TimerSetting,
};

const EAGAIN: i32 = 11;
const EBADF: i32 = 9;

fn ms(n: u64) -> Span {
    Span::from_millis(n)
}

#[test]
fn span_from_millis_splits_seconds() {
    let s = ms(1500);
    assert_eq!(s.secs, 1);
    assert_eq!(s.nanos, 500_000_000);
    let z = ms(0);
    assert_eq!((z.secs, z.nanos), (0, 0));
    let big = ms(u64::MAX);
    assert_eq!(big.secs, u64::MAX / 1000);
    assert_eq!(big.nanos, 615_000_000);
    assert!(big.nanos < NANOS_PER_SEC);
}

#[test]
fn span_is_zero_only_when_empty() {
    assert!(ms(0).is_zero());
    assert!(!Span::from_parts(0, 1).is_zero());
    assert!(!Span::from_parts(3, 0).is_zero());
}

#[test]
fn timespec_from_span_keeps_fields() {
    let t = TimeSpec::from_span(Span::from_parts(7, 250));
    assert_eq!(t, TimeSpec { tv_sec: 7, tv_nsec: 250 });
    assert_eq!(TimeSpec::zero(), TimeSpec { tv_sec: 0, tv_nsec: 0 });
}

#[test]
fn setting_skips_kernel_for_zero_durations() {
    assert_eq!(TimerSetting::for_expiry(ms(0), None), None);
    assert_eq!(TimerSetting::for_expiry(ms(0), Some(ms(0))), None);
}

#[test]
fn setting_for_one_shot_and_periodic() {
    let one = TimerSetting::for_expiry(ms(2500), None).unwrap();
    assert_eq!(one.it_value, TimeSpec { tv_sec: 2, tv_nsec: 500_000_000 });
    assert_eq!(one.it_interval, TimeSpec { tv_sec: 0, tv_nsec: 0 });
    let every = TimerSetting::for_expiry(ms(50), Some(ms(50))).unwrap();
    assert_eq!(every.it_value, TimeSpec { tv_sec: 0, tv_nsec: 50_000_000 });
    assert_eq!(every.it_interval, TimeSpec { tv_sec: 0, tv_nsec: 50_000_000 });
    let late = TimerSetting::for_expiry(ms(0), Some(ms(5000))).unwrap();
    assert_eq!(late.it_value, TimeSpec { tv_sec: 0, tv_nsec: 0 });
    assert_eq!(late.it_interval, TimeSpec { tv_sec: 5, tv_nsec: 0 });
}

#[test]
fn zero_delay_completes_on_first_poll() {
    let mut d = Delay::new(ms(0));
    assert_eq!(d.setting, None);
    assert!(!d.is_done());
    assert_eq!(d.step::<i32>(Event::Polled), DelayAction::Complete);
    assert!(d.is_done());
}

#[test]
fn completed_delay_stays_complete() {
    let mut d = Delay::new(ms(0));
    assert_eq!(d.step::<i32>(Event::Polled), DelayAction::Complete);
    assert_eq!(d.step::<i32>(Event::Polled), DelayAction::Complete);
    assert_eq!(d.phase, DelayPhase::Done);
}

#[test]
fn delay_arms_a_one_shot_timer() {
    let d = Delay::new(ms(1500));
    let t = d.setting.unwrap();
    assert_eq!(t.it_value, TimeSpec { tv_sec: 1, tv_nsec: 500_000_000 });
    assert_eq!(t.it_interval, TimeSpec { tv_sec: 0, tv_nsec: 0 });
    assert_eq!(d.phase, DelayPhase::Waiting);
}

#[test]
fn delay_suspends_until_readable() {
    let mut d = Delay::new(ms(10));
    for _ in 0..100 {
        assert_eq!(d.step::<i32>(Event::Polled), DelayAction::QueryReadiness);
        assert_eq!(
            d.step::<i32>(Event::ReadyQueried(Readiness::NotReadable)),
            DelayAction::Suspend
        );
        assert!(!d.is_done());
    }
}

#[test]
fn delay_completes_after_readable_and_clear() {
    let mut d = Delay::new(ms(10));
    assert_eq!(d.step::<i32>(Event::Polled), DelayAction::QueryReadiness);
    assert_eq!(
        d.step::<i32>(Event::ReadyQueried(Readiness::Readable)),
        DelayAction::ClearReadiness
    );
    assert_eq!(d.phase, DelayPhase::Clearing);
    assert_eq!(d.step::<i32>(Event::Cleared(Ok(()))), DelayAction::Complete);
    assert!(d.is_done());
}

#[test]
fn delay_query_failure_is_reported_once() {
    let mut d = Delay::new(ms(10));
    assert_eq!(d.step::<i32>(Event::Polled), DelayAction::QueryReadiness);
    assert_eq!(
        d.step(Event::ReadyQueried(Readiness::Failed(EBADF))),
        DelayAction::Fail(EBADF)
    );
    assert_eq!(d.phase, DelayPhase::Failed);
    assert_eq!(d.step::<i32>(Event::Polled), DelayAction::Spent);
    assert!(!d.is_done());
}

#[test]
fn delay_clear_failure_is_reported() {
    let mut d = Delay::new(ms(10));
    d.step::<i32>(Event::Polled);
    d.step::<i32>(Event::ReadyQueried(Readiness::Readable));
    assert_eq!(d.step(Event::Cleared(Err(EBADF))), DelayAction::Fail(EBADF));
    assert_eq!(d.phase, DelayPhase::Failed);
}

#[test]
fn zero_interval_yields_on_every_poll() {
    let mut i = Interval::new(ms(0));
    assert_eq!(i.setting, None);
    for _ in 0..10_000 {
        assert_eq!(i.step::<i32>(Event::Polled), IntervalAction::Yield);
    }
    assert_eq!(i.phase, IntervalPhase::Waiting);
}

#[test]
fn interval_of_fifty_millis_yields_once_per_expiration() {
    let mut i = Interval::new(ms(50));
    let t = i.setting.unwrap();
    assert_eq!(t.it_value, TimeSpec { tv_sec: 0, tv_nsec: 50_000_000 });
    assert_eq!(t.it_interval, TimeSpec { tv_sec: 0, tv_nsec: 50_000_000 });
    let mut yields = 0;
    for _ in 0..5 {
        assert_eq!(i.step::<i32>(Event::Polled), IntervalAction::QueryReadiness);
        assert_eq!(
            i.step::<i32>(Event::ReadyQueried(Readiness::NotReadable)),
            IntervalAction::Suspend
        );
        assert_eq!(i.step::<i32>(Event::Polled), IntervalAction::QueryReadiness);
        assert_eq!(
            i.step::<i32>(Event::ReadyQueried(Readiness::Readable)),
            IntervalAction::Drain
        );
        if i.step::<i32>(Event::Drained(Drain::Drained)) == IntervalAction::Yield {
            yields += 1;
        }
        assert_eq!(i.phase, IntervalPhase::Waiting);
    }
    assert_eq!(yields, 5);
    assert!(!i.is_ended());
}

#[test]
fn interval_stale_readiness_is_cleared() {
    let mut i = Interval::new(ms(20));
    i.step::<i32>(Event::Polled);
    i.step::<i32>(Event::ReadyQueried(Readiness::Readable));
    assert_eq!(
        i.step::<i32>(Event::Drained(Drain::WouldBlock)),
        IntervalAction::ClearReadiness
    );
    assert_eq!(i.phase, IntervalPhase::Clearing);
    assert_eq!(i.step::<i32>(Event::Cleared(Ok(()))), IntervalAction::Suspend);
    assert_eq!(i.phase, IntervalPhase::Waiting);
    assert_eq!(i.step::<i32>(Event::Polled), IntervalAction::QueryReadiness);
}

#[test]
fn interval_drain_failure_ends_the_sequence() {
    let mut i = Interval::new(ms(20));
    i.step::<i32>(Event::Polled);
    i.step::<i32>(Event::ReadyQueried(Readiness::Readable));
    assert_eq!(
        i.step(Event::Drained(Drain::Failed(EBADF))),
        IntervalAction::Fail(EBADF)
    );
    assert!(i.is_ended());
    assert_eq!(i.step::<i32>(Event::Polled), IntervalAction::End);
    assert_eq!(i.step::<i32>(Event::Polled), IntervalAction::End);
}

#[test]
fn interval_query_and_clear_failures_end_the_sequence() {
    let mut a = Interval::new(ms(20));
    a.step::<i32>(Event::Polled);
    assert_eq!(
        a.step(Event::ReadyQueried(Readiness::Failed(EAGAIN))),
        IntervalAction::Fail(EAGAIN)
    );
    assert!(a.is_ended());
    let mut b = Interval::new(ms(20));
    b.step::<i32>(Event::Polled);
    b.step::<i32>(Event::ReadyQueried(Readiness::Readable));
    b.step::<i32>(Event::Drained(Drain::WouldBlock));
    assert_eq!(b.step(Event::Cleared(Err(EBADF))), IntervalAction::Fail(EBADF));
    assert!(b.is_ended());
}
