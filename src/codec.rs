//! The newline-delimited text codec: frames are UTF-8 lines, each followed
//! on the wire by a single delimiter byte.
use crate::buffer::easybuf_bytes;
use tokio_core::io::EasyBuf;
use vstd::prelude::*;
use vstd::utf8::{decode_utf8, encode_utf8, valid_utf8};

verus! {

/// The byte that ends every line frame.
pub const DELIMITER: u8 = 0x0a;

/// Why a buffered line could not become a frame.
#[derive(Clone, Copy, Debug, PartialEq, Eq)]
pub enum DecodeError {
    /// The bytes before the delimiter are not valid UTF-8.
    InvalidEncoding,
}

/// Why a frame could not be written; the line codec itself never reports one.
#[derive(Clone, Copy, Debug, PartialEq, Eq)]
pub enum EncodeError {
    /// The frame exceeds a size that the codec accepts.
    FrameTooLong,
}

/// Codec for newline-delimited UTF-8 text. It keeps no state between frames.
pub struct LineCodec;

/// Index of the first delimiter byte in `s`, or `s.len()` when there is none.
pub open spec fn delimiter_pos(s: Seq<u8>) -> nat
    decreases s.len(),
{
    if s.len() == 0 {
        0
    } else if s[0] == DELIMITER {
        0
    } else {
        1 + delimiter_pos(s.drop_first())
    }
}

/// `s` holds at least one whole frame.
pub open spec fn frame_complete(s: Seq<u8>) -> bool {
    delimiter_pos(s) < s.len()
}

/// The payload bytes of the first frame of `s`.
pub open spec fn payload(s: Seq<u8>) -> Seq<u8> {
    s.subrange(0, delimiter_pos(s) as int)
}

/// What stays buffered once the first frame and its delimiter are removed.
pub open spec fn after_frame(s: Seq<u8>) -> Seq<u8> {
    s.subrange(delimiter_pos(s) as int + 1, s.len() as int)
}

/// The payloads of all whole frames of `s`, in order.
pub open spec fn frames(s: Seq<u8>) -> Seq<Seq<u8>>
    decreases s.len(),
{
    if frame_complete(s) {
        seq![payload(s)] + frames(after_frame(s))
    } else {
        Seq::empty()
    }
}

/// The trailing bytes of `s` after its last delimiter.
pub open spec fn remainder(s: Seq<u8>) -> Seq<u8>
    decreases s.len(),
{
    if frame_complete(s) {
        remainder(after_frame(s))
    } else {
        s
    }
}

/// Payloads written back to the wire, each followed by the delimiter.
pub open spec fn with_delimiters(fs: Seq<Seq<u8>>) -> Seq<u8>
    decreases fs.len(),
{
    if fs.len() == 0 {
        Seq::empty()
    } else {
        fs[0] + seq![DELIMITER] + with_delimiters(fs.drop_first())
    }
}

/// What one `decode` call does to a buffer holding `before`: the buffer then
/// holds `after` and `r` is returned.
pub open spec fn decode_step(before: Seq<u8>, after: Seq<u8>, r: Result<Option<String>, DecodeError>) -> bool {
    if !frame_complete(before) {
        r == Ok::<Option<String>, DecodeError>(None) && after == before
    } else {
        &&& after == after_frame(before)
        &&& valid_utf8(payload(before)) ==> (r is Ok && r->Ok_0 is Some && r->Ok_0->Some_0@
            == decode_utf8(payload(before)))
        &&& !valid_utf8(payload(before)) ==> r == Err::<Option<String>, DecodeError>(
            DecodeError::InvalidEncoding,
        )
    }
}

/// `delimiter_pos(s) == i` exactly when no delimiter stands before `i` and
/// one stands at `i` (or `i` is the end).
pub proof fn lemma_delimiter_pos(s: Seq<u8>, i: int)
    requires
        0 <= i <= s.len(),
        forall|j: int| 0 <= j < i ==> s[j] != DELIMITER,
        i == s.len() || s[i] == DELIMITER,
    ensures
        delimiter_pos(s) == i,
    decreases i,
{
    if i > 0 {
        assert forall|j: int| 0 <= j < i - 1 implies s.drop_first()[j] != DELIMITER by {
            assert(s.drop_first()[j] == s[j + 1]);
        }
        lemma_delimiter_pos(s.drop_first(), i - 1);
    }
}

/// No delimiter stands before `delimiter_pos(s)`, and one stands there if it
/// is inside `s`.
pub proof fn lemma_delimiter_pos_bounds(s: Seq<u8>)
    ensures
        delimiter_pos(s) <= s.len(),
        forall|j: int| 0 <= j < delimiter_pos(s) ==> s[j] != DELIMITER,
        frame_complete(s) ==> s[delimiter_pos(s) as int] == DELIMITER,
    decreases s.len(),
{
    if s.len() > 0 && s[0] != DELIMITER {
        lemma_delimiter_pos_bounds(s.drop_first());
        assert forall|j: int| 0 <= j < delimiter_pos(s) implies s[j] != DELIMITER by {
            if j > 0 {
                assert(s[j] == s.drop_first()[j - 1]);
            }
        }
    }
}

/// Relies on `std::str::from_utf8`: it accepts exactly the valid UTF-8 byte
/// sequences, and the text it returns has those bytes as its encoding.
#[verifier::external_body]
fn utf8_text(bytes: &[u8]) -> (r: Option<String>)
    ensures
        r is Some <==> valid_utf8(bytes@),
        r is Some ==> r->Some_0@ == decode_utf8(bytes@),
{
    match std::str::from_utf8(bytes) {
        Ok(s) => Some(s.to_string()),
        Err(_) => None,
    }
}

/// Index of the first delimiter in `bytes`, or its length when there is none.
fn find_delimiter(bytes: &[u8]) -> (r: usize)
    ensures
        r == delimiter_pos(bytes@),
{
    let mut i: usize = 0;
    while i < bytes.len()
        invariant
            i <= bytes@.len(),
            forall|j: int| 0 <= j < i ==> bytes@[j] != DELIMITER,
        decreases bytes@.len() - i,
    {
        if bytes[i] == DELIMITER {
            proof {
                lemma_delimiter_pos(bytes@, i as int);
            }
            return i;
        }
        i = i + 1;
    }
    proof {
        lemma_delimiter_pos(bytes@, i as int);
    }
    i
}

impl LineCodec {
    /// Takes the first whole line out of `buf`. With no delimiter buffered it
    /// returns `Ok(None)` and leaves `buf` as it was; otherwise the line and its
    /// delimiter leave the buffer, and the line is returned as text, or as
    /// `InvalidEncoding` when it is not UTF-8.
    pub fn decode(&mut self, buf: &mut EasyBuf) -> (r: Result<Option<String>, DecodeError>)
        ensures
            decode_step(easybuf_bytes(*old(buf)), easybuf_bytes(*final(buf)), r),
    {
        let ghost before = easybuf_bytes(*buf);
        let i = find_delimiter(buf.as_slice());
        if i < buf.len() {
            let line = buf.drain_to(i);
            buf.drain_to(1);
            assert(easybuf_bytes(line) =~= payload(before));
            assert(easybuf_bytes(*buf) =~= after_frame(before));
            match utf8_text(line.as_slice()) {
                Some(s) => Ok(Some(s)),
                None => Err(DecodeError::InvalidEncoding),
            }
        } else {
            Ok(None)
        }
    }

    /// Appends the frame's UTF-8 bytes and then the delimiter to `buf`.
    pub fn encode(&mut self, msg: String, buf: &mut Vec<u8>) -> (r: Result<(), EncodeError>)
        ensures
            r is Ok,
            final(buf)@ == old(buf)@ + encode_utf8(msg@) + seq![DELIMITER],
    {
        let bytes = msg.as_str().as_bytes();
        let ghost start = buf@;
        buf.extend_from_slice(bytes);
        assert(buf@ =~= start + encode_utf8(msg@));
        buf.push(DELIMITER);
        Ok(())
    }
}

} // verus!
