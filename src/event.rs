use vstd::prelude::*;

verus! {

/// What a readiness query on the timer handle reported.
#[derive(Debug, PartialEq, Eq)]
pub enum Readiness<E> {
    /// The handle is readable: the timer has expired.
    Readable,
    /// Not yet readable; the reactor will wake the task when it is.
    NotReadable,
    /// The query failed.
    Failed(E),
}

/// What reading the expiration counter off the timer handle gave.
#[derive(Debug, PartialEq, Eq)]
pub enum Drain<E> {
    /// The counter was read, and with it the pending expirations acknowledged.
    Drained,
    /// Nothing to read: the readiness was stale.
    WouldBlock,
    /// The read failed with another error.
    Failed(E),
}

/// What the caller reports to a timer: a new poll, or the outcome of the
/// action the timer asked for last.
#[derive(Debug, PartialEq, Eq)]
pub enum Event<E> {
    /// The scheduler polls the timer.
    Polled,
    /// The outcome of a readiness query.
    ReadyQueried(Readiness<E>),
    /// The outcome of reading the expiration counter.
    Drained(Drain<E>),
    /// The outcome of clearing the handle's read readiness.
    Cleared(Result<(), E>),
}

/// Whether an event reports a failed operation.
pub open spec fn is_failure<E>(ev: Event<E>) -> bool {
    match ev {
        Event::ReadyQueried(Readiness::Failed(_)) => true,
        Event::Drained(Drain::Failed(_)) => true,
        Event::Cleared(Err(_)) => true,
        _ => false,
    }
}

} // verus!
