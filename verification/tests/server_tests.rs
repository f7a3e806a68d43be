use tls_echo::event::{received, ReadEvent};
use tls_echo::server::{answer_once, EchoAction, EchoSession, OneShotReply};

#[test]
fn received_takes_the_read_prefix() {
    let mut buf = [0u8; 1024];
    buf[..5].copy_from_slice(b"hello");
    match received(&buf, 5) {
        ReadEvent::Received(b) => assert_eq!(b, b"hello".to_vec()),
        _ => panic!("expected data"),
    }
    match received(&buf, 0) {
        ReadEvent::Received(b) => assert!(b.is_empty()),
        _ => panic!("expected an empty read"),
    }
}

#[test]
fn one_shot_echoes_data() {
    match answer_once(ReadEvent::Received(b"hello".to_vec())) {
        OneShotReply::Echo(b) => assert_eq!(b, b"hello".to_vec()),
        OneShotReply::NothingRead => panic!("expected an echo"),
    }
}

#[test]
fn one_shot_reports_empty_or_failed_read() {
    assert!(matches!(answer_once(ReadEvent::Received(Vec::new())), OneShotReply::NothingRead));
    assert!(matches!(
        answer_once(ReadEvent::Failed("broken pipe".to_string())),
        OneShotReply::NothingRead
    ));
}

#[test]
fn session_echoes_every_chunk_until_close() {
    let mut s = EchoSession::new();
    let mut written: Vec<u8> = Vec::new();
    for chunk in [&b"ab"[..], &b"cde"[..], &b"f"[..]] {
        match s.on_read(ReadEvent::Received(chunk.to_vec())) {
            EchoAction::Echo(b) => written.extend(b),
            _ => panic!("expected an echo"),
        }
        assert!(s.open());
    }
    assert!(matches!(s.on_read(ReadEvent::Received(Vec::new())), EchoAction::Disconnected));
    assert!(!s.open());
    assert!(matches!(s.on_read(ReadEvent::Received(b"late".to_vec())), EchoAction::Idle));
    assert_eq!(written, b"abcdef".to_vec());
}

#[test]
fn session_ends_on_read_error() {
    let mut s = EchoSession::new();
    match s.on_read(ReadEvent::Failed("connection reset".to_string())) {
        EchoAction::ReadError(m) => assert_eq!(m, "connection reset"),
        _ => panic!("expected a read error"),
    }
    assert!(!s.open());
    assert!(matches!(s.on_read(ReadEvent::Failed("again".to_string())), EchoAction::Idle));
}
