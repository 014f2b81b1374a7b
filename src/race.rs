//! Racing two operations, and the timer used as the second one to bound a
//! wait by a deadline.
use vstd::prelude::*;

verus! {

/// Which side of a race finished first; the other is still pending.
#[derive(Debug)]
pub enum Race<A, B> {
    Left(A),
    Right(B),
}

/// The outcome of polling both sides once, the left side first: a finished
/// left side wins, then a finished right side; with neither, the race goes on.
pub open spec fn race_outcome<A, B>(left: Option<A>, right: Option<B>) -> Option<Race<A, B>> {
    match left {
        Some(a) => Some(Race::Left(a)),
        None => match right {
            Some(b) => Some(Race::Right(b)),
            None => None,
        },
    }
}

/// Decides a race from what each side has produced so far.
pub fn race<A, B>(left: Option<A>, right: Option<B>) -> (r: Option<Race<A, B>>)
    ensures
        r == race_outcome(left, right),
{
    match left {
        Some(a) => Some(Race::Left(a)),
        None => match right {
            Some(b) => Some(Race::Right(b)),
            None => None,
        },
    }
}

/// A timer that fires once a deadline is reached.
#[derive(Clone, Copy, Debug, PartialEq, Eq)]
pub struct Timeout {
    pub deadline: u64,
}

impl Timeout {
    /// A timer started at `now` that fires `duration` later (at the largest
    /// time when that would overflow).
    pub fn new(now: u64, duration: u64) -> (r: Timeout)
        ensures
            r.deadline == now.saturating_add(duration),
    {
        Timeout { deadline: now.saturating_add(duration) }
    }

    /// The timer has fired by `now`.
    pub fn is_elapsed(&self, now: u64) -> (r: bool)
        ensures
            r == (now >= self.deadline),
    {
        now >= self.deadline
    }
}

} // verus!
