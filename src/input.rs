//! Reading one line of input with a deadline. The blocking read runs on a
//! worker that sends its single result through a channel; polling takes that
//! result when it is there.
use crate::race::{race, race_outcome, Race, Timeout};
use std::sync::mpsc::{Receiver, TryRecvError};
use vstd::prelude::*;

verus! {

/// Why no line was read.
#[derive(Debug, PartialEq, Eq)]
pub enum InputError {
    /// The read itself failed, with the system's message.
    Failed { message: String },
    /// The deadline passed first.
    TimedOut,
    /// The worker went away without sending a result.
    Abandoned,
}

#[verifier::external_type_specification]
#[verifier::external_body]
#[verifier::reject_recursive_types(T)]
pub struct ExReceiver<T>(Receiver<T>);

/// What a look into the channel found.
pub enum Delivery<T> {
    Value(T),
    Empty,
    Gone,
}

/// Relies on `Receiver::try_recv`: it returns a value that was sent, or says
/// that none is there yet or that the sender is gone. Which one depends on
/// timing, so nothing is promised.
#[verifier::external_body]
fn try_take<T>(rx: &Receiver<T>) -> (r: Delivery<T>) {
    match rx.try_recv() {
        Ok(v) => Delivery::Value(v),
        Err(TryRecvError::Empty) => Delivery::Empty,
        Err(TryRecvError::Disconnected) => Delivery::Gone,
    }
}

/// A pending line of input.
pub struct ReadLine {
    recv: Receiver<Result<String, InputError>>,
}

/// The outcome of one poll of a line read racing a timer: the line's result
/// once it is there, else the timeout once the deadline is reached, else
/// nothing yet.
pub open spec fn name_outcome(
    line: Option<Result<String, InputError>>,
    deadline: u64,
    now: u64,
) -> Option<Result<String, InputError>> {
    match race_outcome(line, if now >= deadline { Some(InputError::TimedOut) } else { None }) {
        Some(Race::Left(r)) => Some(r),
        Some(Race::Right(e)) => Some(Err(e)),
        None => None,
    }
}

impl ReadLine {
    /// The channel on which the worker's result is awaited.
    pub closed spec fn receiver(&self) -> Receiver<Result<String, InputError>> {
        self.recv
    }

    /// Waits on the channel through which a worker will send the line.
    pub fn new(recv: Receiver<Result<String, InputError>>) -> (r: ReadLine)
        ensures
            r.receiver() == recv,
    {
        ReadLine { recv }
    }

    /// The line's result if the worker has sent it; `Abandoned` if the worker
    /// went away without sending; `None` while it is still reading. What the
    /// channel gives is mapped by `delivered_line`.
    pub fn poll(&mut self) -> (r: Option<Result<String, InputError>>)
        ensures
            final(self).receiver() == old(self).receiver(),
    {
        delivered_line(try_take(&self.recv))
    }
}

/// What a look into the worker's channel means for the pending line.
pub open spec fn delivery_outcome(d: Delivery<Result<String, InputError>>) -> Option<
    Result<String, InputError>,
> {
    match d {
        Delivery::Value(v) => Some(v),
        Delivery::Empty => None,
        Delivery::Gone => Some(Err(InputError::Abandoned)),
    }
}

/// Turns what the channel gave into the pending line's outcome: a sent
/// result as it is, nothing yet as `None`, a vanished worker as `Abandoned`.
pub fn delivered_line(d: Delivery<Result<String, InputError>>) -> (r: Option<
    Result<String, InputError>,
>)
    ensures
        r == delivery_outcome(d),
{
    match d {
        Delivery::Value(v) => Some(v),
        Delivery::Empty => None,
        Delivery::Gone => Some(Err(InputError::Abandoned)),
    }
}

/// One poll of the race between reading a name and the timer: the line read
/// if it finished, the timeout if the timer fired first, `None` while both
/// are pending.
pub fn read_name(line: Option<Result<String, InputError>>, timer: &Timeout, now: u64) -> (r: Option<
    Result<String, InputError>,
>)
    ensures
        r == name_outcome(line, timer.deadline, now),
{
    let fired = if timer.is_elapsed(now) {
        Some(InputError::TimedOut)
    } else {
        None
    };
    match race(line, fired) {
        Some(Race::Left(r)) => Some(r),
        Some(Race::Right(e)) => Some(Err(e)),
        None => None,
    }
}

/// A bounded wait gives the line when it arrives before the deadline, and
/// the timeout, never before the deadline, when no line arrives. The line
/// arrives at `arrival` (never, when `None`) with result `v`; the timer is
/// started at `start` for `duration`; the race is polled at `now`.
pub proof fn lemma_bounded_wait(
    v: Result<String, InputError>,
    arrival: Option<u64>,
    start: u64,
    duration: u64,
    now: u64,
)
    requires
        start + duration <= u64::MAX,
    ensures
        ({
            let deadline = start.saturating_add(duration);
            let line = if arrival is Some && arrival->0 <= now { Some(v) } else { None };
            let out = name_outcome(line, deadline, now);
            &&& (arrival is Some && arrival->0 < deadline) ==> (out is Some <==> now
                >= arrival->0) && (now >= arrival->0 ==> out == Some(v))
            &&& arrival is None ==> (out is Some <==> now >= start + duration) && (out is Some
                ==> out == Some(Err::<String, InputError>(InputError::TimedOut)))
        }),
{
}

} // verus!
