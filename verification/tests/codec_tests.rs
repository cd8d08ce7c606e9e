use bytes::BytesMut;
use rust_chat::codec::{ClientCodec, CodecError, ScanOutcome, ServerCodec, MAX_FRAME_LEN};
use rust_chat::message::{ClientMessage, MessagePayload, PeerAddr, ServerMessage};

#[test]
fn encode_appends_json() {
    let mut buf = BytesMut::from(&b"ab"[..]);
    assert_eq!(ClientCodec.encode("{\"Message\":\"hi\"}", &mut buf), Ok(()));
    assert_eq!(&buf[..], b"ab{\"Message\":\"hi\"}");
    assert_eq!(ServerCodec.encode("x", &mut buf), Ok(()));
    assert_eq!(&buf[..], b"ab{\"Message\":\"hi\"}x");
}

#[test]
fn encode_refuses_large_frames() {
    let big = "a".repeat(MAX_FRAME_LEN + 1);
    let mut buf = BytesMut::from(&b"keep"[..]);
    assert_eq!(
        ServerCodec.encode(&big, &mut buf),
        Err(CodecError::FrameTooLarge { len: MAX_FRAME_LEN + 1 })
    );
    assert_eq!(&buf[..], b"keep");
    let just_fits = "b".repeat(MAX_FRAME_LEN);
    let mut buf = BytesMut::new();
    assert_eq!(ClientCodec.encode(&just_fits, &mut buf), Ok(()));
    assert_eq!(buf.len(), MAX_FRAME_LEN);
}

#[test]
fn decode_takes_value_off_the_front() {
    let mut buf = BytesMut::from(&b"\"hi\" rest"[..]);
    let scan: ScanOutcome<ClientMessage, ()> =
        ScanOutcome::Value { item: ClientMessage::Message("hi".to_string()), offset: 4 };
    match ServerCodec.decode(&mut buf, scan) {
        Ok(Some(ClientMessage::Message(m))) => assert_eq!(m, "hi"),
        other => panic!("unexpected {:?}", other),
    }
    assert_eq!(&buf[..], b" rest");
}

#[test]
fn decode_empty_buffer_gives_nothing() {
    let mut buf = BytesMut::new();
    let scan: ScanOutcome<ServerMessage, &str> = ScanOutcome::Invalid("ignored");
    assert!(matches!(ClientCodec.decode(&mut buf, scan), Ok(None)));
}

#[test]
fn decode_incomplete_and_exhausted() {
    let mut buf = BytesMut::from(&b"{\"sen"[..]);
    let scan: ScanOutcome<ServerMessage, ()> = ScanOutcome::Incomplete;
    assert!(matches!(ClientCodec.decode(&mut buf, scan), Ok(None)));
    assert_eq!(&buf[..], b"{\"sen");
    let mut ws = BytesMut::from(&b"  \n"[..]);
    let scan: ScanOutcome<ServerMessage, ()> = ScanOutcome::Exhausted;
    assert!(matches!(ClientCodec.decode(&mut ws, scan), Ok(None)));
    assert_eq!(&ws[..], b"  \n");
}

#[test]
fn decode_invalid_is_an_error() {
    let mut buf = BytesMut::from(&b"]]"[..]);
    let scan: ScanOutcome<ServerMessage, &str> = ScanOutcome::Invalid("bad json");
    assert!(matches!(ClientCodec.decode(&mut buf, scan), Err("bad json")));
    assert_eq!(&buf[..], b"]]");
}

#[test]
fn decode_server_message() {
    let mut buf = BytesMut::from(&b"0123456789"[..]);
    let addr = PeerAddr::V4 { ip4: 1, port: 2 };
    let item = ServerMessage::new(addr, MessagePayload::LoginFail);
    let scan: ScanOutcome<ServerMessage, ()> = ScanOutcome::Value { item, offset: 10 };
    match ClientCodec.decode(&mut buf, scan) {
        Ok(Some(m)) => {
            assert_eq!(m.sender, addr);
            assert_eq!(m.time, 0);
        }
        other => panic!("unexpected {:?}", other),
    }
    assert!(buf.is_empty());
}

#[test]
fn frames_round_trip_in_order() {
    let mut buf = BytesMut::new();
    let first = "{\"Message\":\"one\"}";
    let second = "{\"Message\":\"two\"}";
    assert_eq!(ClientCodec.encode(first, &mut buf), Ok(()));
    assert_eq!(ClientCodec.encode(second, &mut buf), Ok(()));
    let scan: ScanOutcome<ClientMessage, ()> =
        ScanOutcome::Value { item: ClientMessage::Message("one".to_string()), offset: first.len() };
    assert!(matches!(ServerCodec.decode(&mut buf, scan), Ok(Some(ClientMessage::Message(ref m))) if m == "one"));
    assert_eq!(&buf[..], second.as_bytes());
    let scan: ScanOutcome<ClientMessage, ()> =
        ScanOutcome::Value { item: ClientMessage::Message("two".to_string()), offset: second.len() };
    assert!(matches!(ServerCodec.decode(&mut buf, scan), Ok(Some(ClientMessage::Message(ref m))) if m == "two"));
    assert!(buf.is_empty());
}

#[test]
fn buffer_bound() {
    assert!(rust_chat::codec::buffer_fits(10, 0));
    assert!(rust_chat::codec::buffer_fits(MAX_FRAME_LEN + 1, usize::MAX));
    assert!(!rust_chat::codec::buffer_fits(10, isize::MAX as usize));
    assert!(rust_chat::codec::buffer_fits(10, isize::MAX as usize - 10));
}
