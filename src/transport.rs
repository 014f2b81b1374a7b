//! A stream connection seen as frames: a producer of decoded lines and a
//! consumer of lines to write. The program performs the reads and writes
//! and reports what they gave; this type decides what comes out.
use crate::buffer::easybuf_bytes;
use crate::codec::{
    after_frame, decode_step, frame_complete, DecodeError, LineCodec, DELIMITER,
};
use tokio_core::io::EasyBuf;
use vstd::prelude::*;
use vstd::utf8::encode_utf8;

verus! {

/// What the producer side has for its caller.
#[derive(Debug)]
pub enum Incoming {
    /// One decoded line.
    Frame(String),
    /// Nothing yet: read from the connection and poll again.
    NeedRead,
    /// The peer closed and no whole line is left.
    End,
}

/// The line protocol: each accepted connection is bound to a fresh line
/// transport.
pub struct LineProto;

impl LineProto {
    /// A transport for a newly accepted connection, with nothing buffered.
    pub fn bind_transport(&self) -> (r: LineTransport)
        ensures
            r.read_buffer() == Seq::<u8>::empty(),
            r.write_buffer() == Seq::<u8>::empty(),
            !r.peer_closed(),
    {
        LineTransport::new()
    }
}

/// The line transport of one connection.
pub struct LineTransport {
    codec: LineCodec,
    rd: EasyBuf,
    wr: Vec<u8>,
    eof: bool,
}

impl LineTransport {
    /// Bytes read from the connection and not yet decoded.
    pub closed spec fn read_buffer(&self) -> Seq<u8> {
        easybuf_bytes(self.rd)
    }

    /// Encoded bytes not yet accepted by the connection.
    pub closed spec fn write_buffer(&self) -> Seq<u8> {
        self.wr@
    }

    /// The peer has closed its side.
    pub closed spec fn peer_closed(&self) -> bool {
        self.eof
    }

    /// A transport with nothing buffered in either direction.
    pub fn new() -> (r: LineTransport)
        ensures
            r.read_buffer() == Seq::<u8>::empty(),
            r.write_buffer() == Seq::<u8>::empty(),
            !r.peer_closed(),
    {
        LineTransport { codec: LineCodec, rd: EasyBuf::new(), wr: Vec::new(), eof: false }
    }

    /// Records what one read from the connection gave: its bytes are buffered,
    /// and zero bytes mean that the peer has closed.
    pub fn received(&mut self, bytes: &[u8])
        ensures
            final(self).write_buffer() == old(self).write_buffer(),
            bytes@.len() == 0 ==> final(self).peer_closed() && final(self).read_buffer()
                == old(self).read_buffer(),
            bytes@.len() > 0 ==> final(self).peer_closed() == old(self).peer_closed()
                && final(self).read_buffer() == old(self).read_buffer() + bytes@,
    {
        if bytes.len() == 0 {
            self.eof = true;
        } else {
            crate::buffer::buffer_append(&mut self.rd, bytes);
        }
    }

    /// Produces the next line. A whole buffered line is decoded first, even
    /// after the peer closed; without one, the caller is told to read, or,
    /// once the peer has closed, that the frames have ended, and the partial
    /// line left over is discarded.
    pub fn poll_frame(&mut self) -> (r: Result<Incoming, DecodeError>)
        ensures
            final(self).write_buffer() == old(self).write_buffer(),
            final(self).peer_closed() == old(self).peer_closed(),
            frame_complete(old(self).read_buffer()) ==> {
                &&& final(self).read_buffer() == after_frame(old(self).read_buffer())
                &&& match r {
                    Ok(Incoming::Frame(s)) => decode_step(
                        old(self).read_buffer(),
                        final(self).read_buffer(),
                        Ok(Some(s)),
                    ),
                    Err(e) => decode_step(
                        old(self).read_buffer(),
                        final(self).read_buffer(),
                        Err(e),
                    ),
                    _ => false,
                }
            },
            !frame_complete(old(self).read_buffer()) && !old(self).peer_closed() ==> {
                &&& r matches Ok(Incoming::NeedRead)
                &&& final(self).read_buffer() == old(self).read_buffer()
            },
            !frame_complete(old(self).read_buffer()) && old(self).peer_closed() ==> {
                &&& r matches Ok(Incoming::End)
                &&& final(self).read_buffer().len() == 0
            },
    {
        match self.codec.decode(&mut self.rd) {
            Ok(Some(line)) => Ok(Incoming::Frame(line)),
            Err(e) => Err(e),
            Ok(None) => {
                if self.eof {
                    let n = self.rd.len();
                    self.rd.drain_to(n);
                    Ok(Incoming::End)
                } else {
                    Ok(Incoming::NeedRead)
                }
            },
        }
    }

    /// Encodes a line for writing, after whatever is still unwritten.
    pub fn send(&mut self, frame: String)
        ensures
            final(self).write_buffer() == old(self).write_buffer() + encode_utf8(frame@)
                + seq![DELIMITER],
            final(self).read_buffer() == old(self).read_buffer(),
            final(self).peer_closed() == old(self).peer_closed(),
    {
        let _ = self.codec.encode(frame, &mut self.wr);
    }

    /// The bytes waiting to be written, front first.
    pub fn pending_output(&self) -> (r: &[u8])
        ensures
            r@ == self.write_buffer(),
    {
        self.wr.as_slice()
    }

    /// Records that the connection accepted the first `n` waiting bytes; the
    /// rest stays buffered for the next write.
    pub fn written(&mut self, n: usize)
        requires
            n <= old(self).write_buffer().len(),
        ensures
            final(self).write_buffer() == old(self).write_buffer().subrange(
                n as int,
                old(self).write_buffer().len() as int,
            ),
            final(self).read_buffer() == old(self).read_buffer(),
            final(self).peer_closed() == old(self).peer_closed(),
    {
        let rest = self.wr.split_off(n);
        self.wr = rest;
    }
}

} // verus!
