use line_proto::connection::Connection;
use line_proto::input::{delivered_line, read_name, Delivery, InputError, ReadLine};
use line_proto::pipeline::{Action, Event, Pipeline, Stage};
use line_proto::race::{race, Race, Timeout};
use line_proto::service::Echo;
use std::sync::mpsc;

#[test]
fn echo_reverses_text() {
    assert_eq!(Echo.call("hello".to_string()), Ok("olleh".to_string()));
    assert_eq!(Echo.call("añb€".to_string()), Ok("€bña".to_string()));
    assert_eq!(Echo.call(String::new()), Ok(String::new()));
}

#[test]
fn hello_is_answered_reversed() {
    let mut c = Connection::new();
    assert!(matches!(c.advance(), Action::PollRequest));
    c.received(b"hello\n");
    assert!(matches!(c.advance(), Action::Flush));
    assert_eq!(c.pending_output(), b"olleh\n");
}

#[test]
fn pipelined_requests_answered_in_order() {
    let mut c = Connection::new();
    c.received(b"a\nb\n");
    let mut wire = Vec::new();
    loop {
        match c.advance() {
            Action::Flush => {
                let out = c.pending_output().to_vec();
                // the socket takes one byte at a time
                wire.push(out[0]);
                c.written(1);
            }
            Action::PollRequest => break,
            other => panic!("unexpected {:?}", other),
        }
    }
    assert_eq!(wire, b"a\nb\n".to_vec());
    c.received(b"xy\nz");
    let mut wire = Vec::new();
    loop {
        match c.advance() {
            Action::Flush => {
                wire.extend_from_slice(c.pending_output());
                let n = c.pending_output().len();
                c.written(n);
            }
            Action::PollRequest => break,
            other => panic!("unexpected {:?}", other),
        }
    }
    assert_eq!(wire, b"yx\n".to_vec());
}

#[test]
fn closed_peer_with_partial_line_closes() {
    let mut c = Connection::new();
    c.received(b"abc");
    assert!(matches!(c.advance(), Action::PollRequest));
    c.received(b"");
    assert!(matches!(c.advance(), Action::Close));
    assert!(c.pending_output().is_empty());
    assert!(matches!(c.advance(), Action::Close));
}

#[test]
fn invalid_line_fails_connection() {
    let mut c = Connection::new();
    c.received(&[0xc3, b'\n']);
    assert!(matches!(c.advance(), Action::Fail));
    assert!(matches!(c.advance(), Action::Fail));
}

#[test]
fn pipeline_never_overlaps_calls() {
    let events = vec![
        Event::Frame("a".to_string()),
        Event::Frame("b".to_string()),
        Event::ResponsePending,
        Event::Frame("c".to_string()),
        Event::Response("A".to_string()),
        Event::Frame("d".to_string()),
        Event::FlushPending,
        Event::Flushed,
        Event::NoFrame,
        Event::Frame("e".to_string()),
        Event::Response("E".to_string()),
        Event::Flushed,
        Event::EndOfFrames,
    ];
    let mut p = Pipeline::new();
    let mut in_flight = false;
    let mut calls = Vec::new();
    for e in events {
        let is_answer = matches!(e, Event::Response(_));
        match p.step(e) {
            Action::Call(req) => {
                assert!(!in_flight, "second call while one is in flight");
                in_flight = true;
                calls.push(req);
            }
            Action::Write(_) => {
                assert!(is_answer);
                in_flight = false;
            }
            _ => {}
        }
    }
    assert_eq!(calls, vec!["a".to_string(), "e".to_string()]);
    assert_eq!(p.stage, Stage::Closed);
}

#[test]
fn pipeline_errors_fail() {
    let mut p = Pipeline::new();
    assert!(matches!(p.step(Event::DecodeFailed), Action::Fail));
    assert_eq!(p.stage, Stage::Failed);
    let mut p = Pipeline::new();
    p.step(Event::Frame("x".to_string()));
    assert!(matches!(p.step(Event::ServiceFailed), Action::Fail));
    let mut p = Pipeline::new();
    p.step(Event::Frame("x".to_string()));
    p.step(Event::Response("x".to_string()));
    assert!(matches!(p.step(Event::WriteFailed), Action::Fail));
    assert_eq!(p.stage, Stage::Failed);
}

#[test]
fn race_prefers_left() {
    assert!(matches!(race(Some(1u8), Some(2u8)), Some(Race::Left(1))));
    assert!(matches!(race::<u8, u8>(None, Some(2)), Some(Race::Right(2))));
    assert!(race::<u8, u8>(None, None).is_none());
}

#[test]
fn timeout_deadline() {
    let t = Timeout::new(10, 5);
    assert_eq!(t.deadline, 15);
    assert!(!t.is_elapsed(14));
    assert!(t.is_elapsed(15));
    assert_eq!(Timeout::new(u64::MAX - 1, 5).deadline, u64::MAX);
}

#[test]
fn line_before_deadline_wins() {
    let timer = Timeout::new(0, 5);
    assert_eq!(read_name(None, &timer, 0), None);
    let line = Some(Ok("ann\n".to_string()));
    assert_eq!(read_name(line, &timer, 1), Some(Ok("ann\n".to_string())));
}

#[test]
fn no_line_times_out_at_deadline() {
    let timer = Timeout::new(0, 5);
    for now in 0..5 {
        assert_eq!(read_name(None, &timer, now), None);
    }
    assert_eq!(read_name(None, &timer, 5), Some(Err(InputError::TimedOut)));
    assert_eq!(read_name(None, &timer, 9), Some(Err(InputError::TimedOut)));
}

#[test]
fn read_line_polls_channel() {
    let (tx, rx) = mpsc::channel();
    let mut r = ReadLine::new(rx);
    assert_eq!(r.poll(), None);
    tx.send(Ok("bob\n".to_string())).unwrap();
    assert_eq!(r.poll(), Some(Ok("bob\n".to_string())));
    drop(tx);
    assert_eq!(r.poll(), Some(Err(InputError::Abandoned)));
}

#[test]
fn read_line_passes_failure() {
    let (tx, rx) = mpsc::channel();
    let mut r = ReadLine::new(rx);
    tx.send(Err(InputError::Failed { message: "broken pipe".to_string() })).unwrap();
    assert_eq!(r.poll(), Some(Err(InputError::Failed { message: "broken pipe".to_string() })));
}

#[test]
fn channel_outcomes() {
    assert_eq!(delivered_line(Delivery::Empty), None);
    assert_eq!(delivered_line(Delivery::Gone), Some(Err(InputError::Abandoned)));
    assert_eq!(delivered_line(Delivery::Value(Ok("x".to_string()))), Some(Ok("x".to_string())));
    assert_eq!(
        delivered_line(Delivery::Value(Err(InputError::TimedOut))),
        Some(Err(InputError::TimedOut))
    );
}
