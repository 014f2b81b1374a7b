//! The datagram codec: one datagram is one frame, paired with its peer.
use vstd::prelude::*;
use vstd::slice::slice_to_vec;

verus! {

/// A peer's socket address, held as plain values.
#[derive(Clone, Copy, Debug, PartialEq, Eq)]
pub enum PeerAddr {
    V4 { ip: [u8; 4], port: u16 },
    V6 { ip6: [u8; 16], port: u16 },
}

/// Codec for datagrams: it never buffers across packets.
pub struct PacketCodec;

/// Owner of a datagram socket's two directions; the reactor loop that drives
/// them lives with the program.
pub struct UdpManager {}

impl PacketCodec {
    /// Every datagram decodes to exactly one frame: its source and its bytes.
    pub fn decode(&mut self, addr: &PeerAddr, buf: &[u8]) -> (r: (PeerAddr, Vec<u8>))
        ensures
            r.0 == *addr,
            r.1@ == buf@,
    {
        (*addr, slice_to_vec(buf))
    }

    /// Appends the frame's payload to `into` and returns where to send it.
    pub fn encode(&mut self, frame: (PeerAddr, Vec<u8>), into: &mut Vec<u8>) -> (r: PeerAddr)
        ensures
            r == frame.0,
            final(into)@ == old(into)@ + frame.1@,
    {
        let (addr, mut buf) = frame;
        into.append(&mut buf);
        addr
    }
}

} // verus!
