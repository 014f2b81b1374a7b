//! The per-connection request/response loop as a state machine. The program
//! polls the transport and the service, reports each outcome as an event,
//! and performs the action that comes back.
use vstd::prelude::*;

verus! {

/// Where a connection stands.
#[derive(Clone, Copy, Debug, PartialEq, Eq, Structural)]
pub enum Stage {
    /// Waiting for the next request line.
    AwaitingRequest,
    /// A request was handed to the service and its answer is pending.
    AwaitingResponse,
    /// The answer is being written out.
    Writing,
    /// The peer ended the frames between requests.
    Closed,
    /// A decode, service or write error ended the connection.
    Failed,
}

/// What the last poll reported.
#[derive(Debug)]
pub enum Event {
    /// The transport has no whole line yet.
    NoFrame,
    /// The transport produced a request line.
    Frame(String),
    /// The transport reported the end of frames.
    EndOfFrames,
    /// The transport could not decode a line.
    DecodeFailed,
    /// The service's answer is not ready.
    ResponsePending,
    /// The service answered.
    Response(String),
    /// The service failed.
    ServiceFailed,
    /// Some output is still unwritten.
    FlushPending,
    /// All output was written.
    Flushed,
    /// Writing to the connection failed.
    WriteFailed,
}

/// What the program does next.
#[derive(Debug)]
pub enum Action {
    /// Poll the transport for a request line.
    PollRequest,
    /// Hand this request to the service.
    Call(String),
    /// Poll the service's pending answer.
    PollResponse,
    /// Encode this answer and start writing it.
    Write(String),
    /// Keep flushing the output.
    Flush,
    /// Close the connection normally.
    Close,
    /// Tear the connection down after an error.
    Fail,
}

/// One transition: the next stage and the action, for a stage and an event.
/// An event that does not belong to the stage changes nothing; an ended
/// connection stays ended.
pub open spec fn transition(s: Stage, e: Event) -> (Stage, Action) {
    match s {
        Stage::AwaitingRequest => match e {
            Event::Frame(req) => (Stage::AwaitingResponse, Action::Call(req)),
            Event::EndOfFrames => (Stage::Closed, Action::Close),
            Event::DecodeFailed => (Stage::Failed, Action::Fail),
            _ => (Stage::AwaitingRequest, Action::PollRequest),
        },
        Stage::AwaitingResponse => match e {
            Event::Response(resp) => (Stage::Writing, Action::Write(resp)),
            Event::ServiceFailed => (Stage::Failed, Action::Fail),
            _ => (Stage::AwaitingResponse, Action::PollResponse),
        },
        Stage::Writing => match e {
            Event::Flushed => (Stage::AwaitingRequest, Action::PollRequest),
            Event::WriteFailed => (Stage::Failed, Action::Fail),
            _ => (Stage::Writing, Action::Flush),
        },
        Stage::Closed => (Stage::Closed, Action::Close),
        Stage::Failed => (Stage::Failed, Action::Fail),
    }
}

/// The stage reached and the actions taken after the events, one by one, from `s`.
pub open spec fn run(s: Stage, events: Seq<Event>) -> (Stage, Seq<Action>)
    decreases events.len(),
{
    if events.len() == 0 {
        (s, Seq::empty())
    } else {
        let prev = run(s, events.drop_last());
        let t = transition(prev.0, events.last());
        (t.0, prev.1.push(t.1))
    }
}

/// Between the actions at `i` and `j`, an answer was taken for writing.
pub open spec fn answered_between(acts: Seq<Action>, i: int, j: int) -> bool {
    exists|k: int| i < k < j && #[trigger] acts[k] is Write
}

/// Every call in `acts` was answered later on, unless the loop still waits on
/// it or has failed.
pub open spec fn calls_settled(st: Stage, acts: Seq<Action>) -> bool {
    forall|i: int|
        0 <= i < acts.len() && #[trigger] acts[i] is Call ==> answered_between(acts, i, acts.len() as int)
            || st == Stage::AwaitingResponse || st == Stage::Failed
}

/// A connection never calls the service again before its previous call was
/// answered: from a fresh connection, whatever events come, between any two
/// calls the loop has taken the first call's answer for writing.
pub proof fn lemma_no_overlapping_calls(events: Seq<Event>)
    ensures
        forall|i: int, j: int|
            0 <= i < j < run(Stage::AwaitingRequest, events).1.len() && (#[trigger] run(
                Stage::AwaitingRequest,
                events,
            ).1[i]) is Call && (#[trigger] run(Stage::AwaitingRequest, events).1[j]) is Call
                ==> answered_between(run(Stage::AwaitingRequest, events).1, i, j),
        calls_settled(run(Stage::AwaitingRequest, events).0, run(Stage::AwaitingRequest, events).1),
        run(Stage::AwaitingRequest, events).1.len() == events.len(),
    decreases events.len(),
{
    if events.len() > 0 {
        let init = events.drop_last();
        lemma_no_overlapping_calls(init);
        let prev = run(Stage::AwaitingRequest, init);
        let t = transition(prev.0, events.last());
        let acts = prev.1.push(t.1);
        let n = prev.1.len() as int;
        assert forall|i: int| 0 <= i < acts.len() && #[trigger] acts[i] is Call implies
            answered_between(acts, i, acts.len() as int) || t.0 == Stage::AwaitingResponse
                || t.0 == Stage::Failed by {
            if i < n {
                assert(prev.1[i] is Call);
                if answered_between(prev.1, i, n) {
                    let k = choose|k: int| i < k < n && #[trigger] prev.1[k] is Write;
                    assert(acts[k] is Write);
                } else if prev.0 == Stage::AwaitingResponse && t.1 is Write {
                    assert(acts[n] is Write);
                }
            }
        }
        assert forall|i: int, j: int|
            0 <= i < j < acts.len() && #[trigger] acts[i] is Call && #[trigger] acts[j] is Call
                implies answered_between(acts, i, j) by {
            assert(prev.1[i] is Call);
            if j < n {
                assert(prev.1[j] is Call);
                let k = choose|k: int| i < k < j && #[trigger] prev.1[k] is Write;
                assert(acts[k] is Write);
            } else {
                assert(prev.0 == Stage::AwaitingRequest);
                let k = choose|k: int| i < k < n && #[trigger] prev.1[k] is Write;
                assert(acts[k] is Write);
            }
        }
    }
}

/// The state of one connection's loop.
pub struct Pipeline {
    pub stage: Stage,
}

impl Pipeline {
    /// A fresh connection, waiting for its first request.
    pub fn new() -> (r: Pipeline)
        ensures
            r.stage == Stage::AwaitingRequest,
    {
        Pipeline { stage: Stage::AwaitingRequest }
    }

    /// Takes one event and returns the action it calls for.
    pub fn step(&mut self, e: Event) -> (a: Action)
        ensures
            (final(self).stage, a) == transition(old(self).stage, e),
    {
        match self.stage {
            Stage::AwaitingRequest => match e {
                Event::Frame(req) => {
                    self.stage = Stage::AwaitingResponse;
                    Action::Call(req)
                },
                Event::EndOfFrames => {
                    self.stage = Stage::Closed;
                    Action::Close
                },
                Event::DecodeFailed => {
                    self.stage = Stage::Failed;
                    Action::Fail
                },
                _ => Action::PollRequest,
            },
            Stage::AwaitingResponse => match e {
                Event::Response(resp) => {
                    self.stage = Stage::Writing;
                    Action::Write(resp)
                },
                Event::ServiceFailed => {
                    self.stage = Stage::Failed;
                    Action::Fail
                },
                _ => Action::PollResponse,
            },
            Stage::Writing => match e {
                Event::Flushed => {
                    self.stage = Stage::AwaitingRequest;
                    Action::PollRequest
                },
                Event::WriteFailed => {
                    self.stage = Stage::Failed;
                    Action::Fail
                },
                _ => Action::Flush,
            },
            Stage::Closed => Action::Close,
            Stage::Failed => Action::Fail,
        }
    }
}

} // verus!
