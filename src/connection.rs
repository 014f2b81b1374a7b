//! One served connection: its line transport, its loop state and its own
//! echo service. The program reads and writes the socket; `advance` does
//! everything in between, one request at a time.
use crate::codec::{after_frame, frame_complete, payload, DELIMITER};
use crate::pipeline::{Action, Event, Pipeline, Stage};
use crate::service::{reversed, Echo};
use crate::transport::{Incoming, LineTransport};
use vstd::prelude::*;
use vstd::utf8::{decode_utf8, encode_utf8, valid_utf8};

verus! {

/// The bytes written back for a request line with payload `p`.
pub open spec fn reply_bytes(p: Seq<u8>) -> Seq<u8> {
    encode_utf8(reversed(decode_utf8(p))) + seq![DELIMITER]
}

/// A connection served by a fresh `Echo`.
pub struct Connection {
    transport: LineTransport,
    pipeline: Pipeline,
    service: Echo,
}

impl Connection {
    /// The loop's stage.
    pub closed spec fn stage(&self) -> Stage {
        self.pipeline.stage
    }

    /// Bytes read and not yet decoded.
    pub closed spec fn read_buffer(&self) -> Seq<u8> {
        self.transport.read_buffer()
    }

    /// Encoded answers not yet written.
    pub closed spec fn write_buffer(&self) -> Seq<u8> {
        self.transport.write_buffer()
    }

    /// The peer has closed its side.
    pub closed spec fn peer_closed(&self) -> bool {
        self.transport.peer_closed()
    }

    /// No call is left hanging between two `advance` calls, and nothing is
    /// waiting to be written while a request is awaited.
    pub open spec fn wf(&self) -> bool {
        &&& self.stage() != Stage::AwaitingResponse
        &&& self.stage() == Stage::AwaitingRequest ==> self.write_buffer().len() == 0
    }

    /// The loop is free to take the next request.
    pub open spec fn ready(&self) -> bool {
        self.stage() == Stage::AwaitingRequest || (self.stage() == Stage::Writing
            && self.write_buffer().len() == 0)
    }

    /// A newly accepted connection.
    pub fn new() -> (r: Connection)
        ensures
            r.wf(),
            r.stage() == Stage::AwaitingRequest,
            r.read_buffer().len() == 0,
            r.write_buffer().len() == 0,
            !r.peer_closed(),
    {
        Connection { transport: LineTransport::new(), pipeline: Pipeline::new(), service: Echo }
    }

    /// Records what one read from the socket gave; zero bytes mean the peer closed.
    pub fn received(&mut self, bytes: &[u8])
        requires
            old(self).wf(),
        ensures
            final(self).wf(),
            final(self).stage() == old(self).stage(),
            final(self).write_buffer() == old(self).write_buffer(),
            bytes@.len() == 0 ==> final(self).peer_closed() && final(self).read_buffer()
                == old(self).read_buffer(),
            bytes@.len() > 0 ==> final(self).peer_closed() == old(self).peer_closed()
                && final(self).read_buffer() == old(self).read_buffer() + bytes@,
    {
        self.transport.received(bytes);
    }

    /// The bytes waiting to be written to the socket.
    pub fn pending_output(&self) -> (r: &[u8])
        ensures
            r@ == self.write_buffer(),
    {
        self.transport.pending_output()
    }

    /// Records that the socket accepted the first `n` waiting bytes.
    pub fn written(&mut self, n: usize)
        requires
            old(self).wf(),
            n <= old(self).write_buffer().len(),
        ensures
            final(self).wf(),
            final(self).stage() == old(self).stage(),
            final(self).read_buffer() == old(self).read_buffer(),
            final(self).peer_closed() == old(self).peer_closed(),
            final(self).write_buffer() == old(self).write_buffer().subrange(
                n as int,
                old(self).write_buffer().len() as int,
            ),
    {
        self.transport.written(n);
    }

    /// Moves the connection on until it must wait for the socket. Once the
    /// previous answer is written, the next whole request line is decoded,
    /// answered and queued for writing (`Flush`); without one it asks for a
    /// read (`PollRequest`), or closes once the peer has closed (`Close`),
    /// dropping a partial line; a line that is not UTF-8 fails the
    /// connection (`Fail`).
    pub fn advance(&mut self) -> (a: Action)
        requires
            old(self).wf(),
        ensures
            final(self).wf(),
            final(self).peer_closed() == old(self).peer_closed(),
            old(self).stage() == Stage::Closed ==> {
                &&& a is Close
                &&& final(self).stage() == Stage::Closed
                &&& final(self).read_buffer() == old(self).read_buffer()
                &&& final(self).write_buffer() == old(self).write_buffer()
            },
            old(self).stage() == Stage::Failed ==> {
                &&& a is Fail
                &&& final(self).stage() == Stage::Failed
                &&& final(self).read_buffer() == old(self).read_buffer()
                &&& final(self).write_buffer() == old(self).write_buffer()
            },
            old(self).stage() == Stage::Writing && old(self).write_buffer().len() > 0 ==> {
                &&& a is Flush
                &&& final(self).stage() == Stage::Writing
                &&& final(self).read_buffer() == old(self).read_buffer()
                &&& final(self).write_buffer() == old(self).write_buffer()
            },
            old(self).ready() && frame_complete(old(self).read_buffer()) && valid_utf8(
                payload(old(self).read_buffer()),
            ) ==> {
                &&& a is Flush
                &&& final(self).stage() == Stage::Writing
                &&& final(self).read_buffer() == after_frame(old(self).read_buffer())
                &&& final(self).write_buffer() == reply_bytes(payload(old(self).read_buffer()))
            },
            old(self).ready() && frame_complete(old(self).read_buffer()) && !valid_utf8(
                payload(old(self).read_buffer()),
            ) ==> {
                &&& a is Fail
                &&& final(self).stage() == Stage::Failed
                &&& final(self).read_buffer() == after_frame(old(self).read_buffer())
            },
            old(self).ready() && !frame_complete(old(self).read_buffer())
                && !old(self).peer_closed() ==> {
                &&& a is PollRequest
                &&& final(self).stage() == Stage::AwaitingRequest
                &&& final(self).read_buffer() == old(self).read_buffer()
                &&& final(self).write_buffer().len() == 0
            },
            old(self).ready() && !frame_complete(old(self).read_buffer())
                && old(self).peer_closed() ==> {
                &&& a is Close
                &&& final(self).stage() == Stage::Closed
                &&& final(self).read_buffer().len() == 0
            },
    {
        if self.pipeline.stage == Stage::Writing {
            if self.transport.pending_output().len() > 0 {
                return Action::Flush;
            }
            self.pipeline.step(Event::Flushed);
        }
        if self.pipeline.stage == Stage::Closed {
            return Action::Close;
        }
        if self.pipeline.stage == Stage::Failed {
            return Action::Fail;
        }
        let event = match self.transport.poll_frame() {
            Ok(Incoming::Frame(line)) => Event::Frame(line),
            Ok(Incoming::NeedRead) => Event::NoFrame,
            Ok(Incoming::End) => Event::EndOfFrames,
            Err(_) => Event::DecodeFailed,
        };
        let action = self.pipeline.step(event);
        match action {
            Action::Call(req) => {
                let answer = match self.service.call(req) {
                    Ok(resp) => Event::Response(resp),
                    Err(_) => Event::ServiceFailed,
                };
                let next = self.pipeline.step(answer);
                match next {
                    Action::Write(resp) => {
                        self.transport.send(resp);
                        Action::Flush
                    },
                    other => other,
                }
            },
            other => other,
        }
    }
}

} // verus!
