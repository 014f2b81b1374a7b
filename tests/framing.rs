use line_proto::codec::{DecodeError, LineCodec};
use line_proto::packet::{PacketCodec, PeerAddr};
use line_proto::transport::{Incoming, LineProto, LineTransport};
use tokio_core::io::EasyBuf;

fn decode_all(t: &mut LineTransport) -> Vec<String> {
    let mut out = Vec::new();
    loop {
        match t.poll_frame() {
            Ok(Incoming::Frame(s)) => out.push(s),
            Ok(Incoming::NeedRead) | Ok(Incoming::End) => return out,
            Err(e) => panic!("decode failed: {:?}", e),
        }
    }
}

#[test]
fn decode_without_delimiter_keeps_bytes() {
    let mut codec = LineCodec;
    let mut buf = EasyBuf::from(b"hel".to_vec());
    assert_eq!(codec.decode(&mut buf).unwrap(), None);
    assert_eq!(codec.decode(&mut buf).unwrap(), None);
    assert_eq!(buf.as_slice(), b"hel");
}

#[test]
fn decode_takes_first_line_only() {
    let mut codec = LineCodec;
    let mut buf = EasyBuf::from(b"hello\nwor".to_vec());
    assert_eq!(codec.decode(&mut buf).unwrap(), Some("hello".to_string()));
    assert_eq!(buf.as_slice(), b"wor");
}

#[test]
fn decode_empty_line() {
    let mut codec = LineCodec;
    let mut buf = EasyBuf::from(b"\nx\n".to_vec());
    assert_eq!(codec.decode(&mut buf).unwrap(), Some(String::new()));
    assert_eq!(codec.decode(&mut buf).unwrap(), Some("x".to_string()));
    assert_eq!(buf.as_slice(), b"");
}

#[test]
fn decode_rejects_invalid_utf8() {
    let mut codec = LineCodec;
    let mut buf = EasyBuf::from(vec![0xff, 0xfe, b'\n', b'a']);
    assert_eq!(codec.decode(&mut buf), Err(DecodeError::InvalidEncoding));
    assert_eq!(buf.as_slice(), b"a");
}

#[test]
fn decode_multibyte_text() {
    let mut codec = LineCodec;
    let mut buf = EasyBuf::from("añb€\n".as_bytes().to_vec());
    assert_eq!(codec.decode(&mut buf).unwrap(), Some("añb€".to_string()));
}

#[test]
fn encode_appends_delimiter() {
    let mut codec = LineCodec;
    let mut out = b"x\n".to_vec();
    assert!(codec.encode("abc".to_string(), &mut out).is_ok());
    assert_eq!(out, b"x\nabc\n".to_vec());
}

#[test]
fn encode_then_decode_round_trip() {
    for msg in ["", "hello", "héllo wörld", "tab\there"] {
        let mut codec = LineCodec;
        let mut out = Vec::new();
        codec.encode(msg.to_string(), &mut out).unwrap();
        let mut buf = EasyBuf::from(out);
        assert_eq!(codec.decode(&mut buf).unwrap(), Some(msg.to_string()));
        assert_eq!(buf.len(), 0);
    }
}

#[test]
fn chunking_is_transparent() {
    let input: &[u8] = "one\ntwo\n\nthree\nfo€ur\npartial".as_bytes();
    let mut whole = LineTransport::new();
    whole.received(input);
    let expected = decode_all(&mut whole);
    assert_eq!(expected, vec!["one", "two", "", "three", "fo€ur"]);
    for size in 1..input.len() + 1 {
        let mut t = LineTransport::new();
        let mut got = Vec::new();
        for chunk in input.chunks(size) {
            t.received(chunk);
            got.extend(decode_all(&mut t));
        }
        assert_eq!(got, expected, "chunk size {}", size);
    }
}

#[test]
fn decoding_keeps_every_byte() {
    let input: &[u8] = b"ab\ncd\n\nef";
    let mut t = LineTransport::new();
    t.received(input);
    let mut joined = Vec::new();
    for f in decode_all(&mut t) {
        joined.extend_from_slice(f.as_bytes());
        joined.push(b'\n');
    }
    assert_eq!(joined, b"ab\ncd\n\n".to_vec());
    t.received(b"");
    assert!(matches!(t.poll_frame(), Ok(Incoming::End)));
}

#[test]
fn zero_byte_read_discards_partial_line() {
    let mut t = LineTransport::new();
    t.received(b"done\nparti");
    assert!(matches!(t.poll_frame(), Ok(Incoming::Frame(ref s)) if s == "done"));
    assert!(matches!(t.poll_frame(), Ok(Incoming::NeedRead)));
    t.received(b"");
    assert!(matches!(t.poll_frame(), Ok(Incoming::End)));
    assert!(matches!(t.poll_frame(), Ok(Incoming::End)));
}

#[test]
fn complete_line_is_drained_before_end() {
    let mut t = LineTransport::new();
    t.received(b"last\n");
    t.received(b"");
    assert!(matches!(t.poll_frame(), Ok(Incoming::Frame(ref s)) if s == "last"));
    assert!(matches!(t.poll_frame(), Ok(Incoming::End)));
}

#[test]
fn transport_writes_in_parts() {
    let mut t = LineProto.bind_transport();
    t.send("hi".to_string());
    t.send("yo".to_string());
    assert_eq!(t.pending_output(), b"hi\nyo\n");
    t.written(4);
    assert_eq!(t.pending_output(), b"o\n");
    t.written(2);
    assert!(t.pending_output().is_empty());
}

#[test]
fn packet_decode_is_total() {
    let mut codec = PacketCodec;
    let addr = PeerAddr::V4 { ip: [127, 0, 0, 1], port: 12345 };
    let (a, bytes) = codec.decode(&addr, b"ping");
    assert_eq!(a, addr);
    assert_eq!(bytes, b"ping".to_vec());
    let (_, empty) = codec.decode(&addr, b"");
    assert!(empty.is_empty());
}

#[test]
fn packet_encode_returns_destination() {
    let mut codec = PacketCodec;
    let addr = PeerAddr::V6 { ip6: [0; 16], port: 9 };
    let mut into = Vec::new();
    let dest = codec.encode((addr, b"I am a packet".to_vec()), &mut into);
    assert_eq!(dest, addr);
    assert_eq!(into, b"I am a packet".to_vec());
}
