//! What the line codec guarantees across calls: chunking is transparent,
//! no byte is lost, and encoding then decoding gives the frame back.
use crate::codec::{
    after_frame, delimiter_pos, frame_complete, frames, lemma_delimiter_pos,
    lemma_delimiter_pos_bounds, payload, remainder, with_delimiters, decode_step, DecodeError,
    DELIMITER,
};
use vstd::prelude::*;
use vstd::utf8::{
    decode_utf8, decode_utf8_encode_utf8, encode_utf8, encode_utf8_decode_utf8,
    encode_utf8_valid_utf8, valid_utf8,
};

verus! {

/// Frames and leftover bytes after the chunks arrive one by one, each chunk
/// appended to what the previous ones left buffered and decoded as far as it
/// goes. By `lemma_repeated_decode`, each such step is what calling `decode`
/// until it finds no whole line returns and leaves.
pub open spec fn decode_chunks(chunks: Seq<Seq<u8>>) -> (Seq<Seq<u8>>, Seq<u8>)
    decreases chunks.len(),
{
    if chunks.len() == 0 {
        (Seq::empty(), Seq::empty())
    } else {
        let prev = decode_chunks(chunks.drop_last());
        let buffered = prev.1 + chunks.last();
        (prev.0 + frames(buffered), remainder(buffered))
    }
}

/// Appending bytes never moves the first delimiter of a buffer that has one,
/// and otherwise the first delimiter is the first one of the appended bytes.
pub proof fn lemma_delimiter_pos_append(a: Seq<u8>, b: Seq<u8>)
    ensures
        frame_complete(a) ==> delimiter_pos(a + b) == delimiter_pos(a),
        !frame_complete(a) ==> delimiter_pos(a + b) == a.len() + delimiter_pos(b),
{
    lemma_delimiter_pos_bounds(a);
    lemma_delimiter_pos_bounds(b);
    let ab = a + b;
    if frame_complete(a) {
        let p = delimiter_pos(a) as int;
        assert forall|j: int| 0 <= j < p implies ab[j] != DELIMITER by {
            assert(ab[j] == a[j]);
        }
        lemma_delimiter_pos(ab, p);
    } else {
        let p = a.len() as int + delimiter_pos(b) as int;
        assert forall|j: int| 0 <= j < p implies ab[j] != DELIMITER by {
            if j >= a.len() {
                assert(ab[j] == b[j - a.len()]);
            } else {
                assert(ab[j] == a[j]);
            }
        }
        if p < ab.len() {
            assert(ab[p] == b[p - a.len()]);
        }
        lemma_delimiter_pos(ab, p);
    }
}

/// Decoding `a + b` gives the frames of `a` and then those of what `a` left
/// buffered followed by `b`, and leaves the same trailing bytes.
pub proof fn lemma_decode_split(a: Seq<u8>, b: Seq<u8>)
    ensures
        frames(a + b) == frames(a) + frames(remainder(a) + b),
        remainder(a + b) == remainder(remainder(a) + b),
    decreases a.len(),
{
    lemma_delimiter_pos_append(a, b);
    if frame_complete(a) {
        let rest = after_frame(a);
        assert(frame_complete(a + b));
        assert(payload(a + b) =~= payload(a));
        assert(after_frame(a + b) =~= rest + b);
        lemma_decode_split(rest, b);
        assert(frames(a + b) =~= frames(a) + frames(remainder(a) + b));
    } else {
        assert(frames(a) + frames(remainder(a) + b) =~= frames(a + b));
    }
}

/// Chunking is transparent: however the input is cut into chunks, decoding
/// them as they arrive yields the frames, and leaves the partial line, of
/// decoding the whole input at once.
pub proof fn lemma_chunking_transparent(chunks: Seq<Seq<u8>>)
    ensures
        decode_chunks(chunks) == (frames(chunks.flatten()), remainder(chunks.flatten())),
    decreases chunks.len(),
{
    chunks.lemma_flatten_and_flatten_alt_are_equivalent();
    if chunks.len() > 0 {
        let init = chunks.drop_last();
        lemma_chunking_transparent(init);
        init.lemma_flatten_and_flatten_alt_are_equivalent();
        lemma_decode_split(init.flatten(), chunks.last());
    } else {
        assert(!frame_complete(Seq::<u8>::empty()));
    }
}

/// Decoding never loses, duplicates or reorders bytes: the frames, each with
/// its delimiter, followed by the trailing partial line, are the input.
pub proof fn lemma_decode_keeps_bytes(s: Seq<u8>)
    ensures
        with_delimiters(frames(s)) + remainder(s) == s,
    decreases s.len(),
{
    if frame_complete(s) {
        lemma_delimiter_pos_bounds(s);
        let rest = after_frame(s);
        lemma_decode_keeps_bytes(rest);
        let fs = frames(s);
        assert(fs[0] == payload(s));
        assert(fs.drop_first() =~= frames(rest));
        assert(s =~= payload(s) + seq![DELIMITER] + rest);
        assert(with_delimiters(fs) + remainder(s) =~= s);
    }
}

/// Calling `decode` on a buffer again and again, until a call finds no whole
/// line, returns the frames of what was buffered, in order and each once, as
/// text whose bytes are the frame, and leaves the trailing partial line: the
/// lines returned, each with its delimiter, followed by what is left, are
/// the bytes first buffered. `bufs[i]` is what the buffer held before call
/// `i`, and `rs[i]` is what that call returned.
pub proof fn lemma_repeated_decode(bufs: Seq<Seq<u8>>, rs: Seq<Result<Option<String>, DecodeError>>)
    requires
        rs.len() >= 1,
        bufs.len() == rs.len() + 1,
        forall|i: int| 0 <= i < rs.len() ==> decode_step(bufs[i], bufs[i + 1], #[trigger] rs[i]),
        forall|i: int| 0 <= i < rs.len() - 1 ==> (#[trigger] rs[i]) is Ok && rs[i]->Ok_0 is Some,
        rs.last() == Ok::<Option<String>, DecodeError>(None),
    ensures
        frames(bufs[0]).len() == rs.len() - 1,
        forall|i: int|
            0 <= i < rs.len() - 1 ==> frames(bufs[0])[i] == encode_utf8(
                (#[trigger] rs[i])->Ok_0->Some_0@,
            ),
        bufs.last() == remainder(bufs[0]),
        !frame_complete(bufs.last()),
        with_delimiters(frames(bufs[0])) + bufs.last() == bufs[0],
    decreases rs.len(),
{
    lemma_decode_keeps_bytes(bufs[0]);
    if rs.len() == 1 {
        assert(decode_step(bufs[0], bufs[1], rs[0]));
    } else {
        let b0 = bufs[0];
        assert(decode_step(b0, bufs[1], rs[0]));
        assert(rs[0] is Ok && rs[0]->Ok_0 is Some);
        assert(frame_complete(b0));
        assert(valid_utf8(payload(b0)));
        decode_utf8_encode_utf8(payload(b0));
        let tb = bufs.drop_first();
        let tr = rs.drop_first();
        assert forall|i: int| 0 <= i < tr.len() implies decode_step(tb[i], tb[i + 1], #[trigger] tr[i]) by {
            assert(tb[i] == bufs[i + 1] && tb[i + 1] == bufs[i + 2] && tr[i] == rs[i + 1]);
            assert(decode_step(bufs[i + 1], bufs[i + 2], rs[i + 1]));
        }
        assert forall|i: int| 0 <= i < tr.len() - 1 implies (#[trigger] tr[i]) is Ok && tr[i]->Ok_0 is Some by {
            assert(tr[i] == rs[i + 1]);
            assert(rs[i + 1] is Ok && rs[i + 1]->Ok_0 is Some);
        }
        assert(tr.last() == rs.last());
        lemma_repeated_decode(tb, tr);
        assert(tb[0] == after_frame(b0));
        let fs = frames(b0);
        assert(fs == seq![payload(b0)] + frames(after_frame(b0)));
        assert forall|i: int| 0 <= i < rs.len() - 1 implies fs[i] == encode_utf8(
            (#[trigger] rs[i])->Ok_0->Some_0@,
        ) by {
            if i > 0 {
                assert(tr[i - 1] == rs[i]);
                assert(fs[i] == frames(tb[0])[i - 1]);
            }
        }
        assert(bufs.last() == tb.last());
    }
}

/// A payload without the delimiter byte, encoded and followed by the
/// delimiter, decodes to that payload and leaves nothing buffered.
pub proof fn lemma_line_round_trip(msg: Seq<char>)
    requires
        !encode_utf8(msg).contains(DELIMITER),
    ensures
        forall|after: Seq<u8>, r: Result<Option<String>, DecodeError>|
            decode_step(encode_utf8(msg) + seq![DELIMITER], after, r) ==> {
                &&& r is Ok
                &&& r->Ok_0 is Some
                &&& r->Ok_0->Some_0@ == msg
                &&& after.len() == 0
            },
        frames(encode_utf8(msg) + seq![DELIMITER]) == seq![encode_utf8(msg)],
        remainder(encode_utf8(msg) + seq![DELIMITER]).len() == 0,
{
    let e = encode_utf8(msg);
    let b = e + seq![DELIMITER];
    assert forall|j: int| 0 <= j < e.len() implies b[j] != DELIMITER by {
        assert(b[j] == e[j]);
        if e[j] == DELIMITER {
            assert(e.contains(DELIMITER));
        }
    }
    lemma_delimiter_pos(b, e.len() as int);
    assert(payload(b) =~= e);
    assert(after_frame(b) =~= Seq::<u8>::empty());
    encode_utf8_valid_utf8(msg);
    encode_utf8_decode_utf8(msg);
    let empty = Seq::<u8>::empty();
    assert(delimiter_pos(empty) == 0);
    assert(!frame_complete(empty));
    assert(frames(empty) =~= Seq::<Seq<u8>>::empty());
    assert(remainder(empty) == empty);
    assert(frame_complete(b));
    assert(frames(b) == seq![payload(b)] + frames(after_frame(b)));
    assert(frames(b) =~= seq![e]);
    assert(remainder(b) == remainder(after_frame(b)));
}

} // verus!
