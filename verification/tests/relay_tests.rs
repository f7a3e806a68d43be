use tls_echo::event::ReadEvent;
use tls_echo::relay::{
    handshake_error, ConnectErrorKind, Delivery, HandshakeFailure, RelayAction, RelayEnd,
    RelayEvent, RelayPhase, RelaySession, Side,
};

fn data(b: &[u8]) -> ReadEvent {
    ReadEvent::Received(b.to_vec())
}

#[test]
fn relay_round_trip() {
    let mut s = RelaySession::for_tls_upstream();
    assert_eq!(s.phase(), RelayPhase::ReadClient);
    match s.on_event(RelayEvent::FromClient(data(b"hi"))) {
        RelayAction::Forward(Side::Upstream, b, true) => assert_eq!(b, b"hi".to_vec()),
        _ => panic!("expected a forward upstream"),
    }
    assert_eq!(s.phase(), RelayPhase::SendUpstream(2));
    assert!(matches!(
        s.on_event(RelayEvent::Delivered(Delivery::Done)),
        RelayAction::Forwarded(Side::Upstream, 2)
    ));
    assert_eq!(s.phase(), RelayPhase::ReadUpstream);
    match s.on_event(RelayEvent::FromUpstream(data(b"hi!"))) {
        RelayAction::Forward(Side::Client, b, true) => assert_eq!(b, b"hi!".to_vec()),
        _ => panic!("expected a forward to the client"),
    }
    assert_eq!(s.phase(), RelayPhase::SendClient(3));
    assert!(matches!(
        s.on_event(RelayEvent::Delivered(Delivery::Done)),
        RelayAction::Forwarded(Side::Client, 3)
    ));
    assert_eq!(s.phase(), RelayPhase::ReadClient);
}

#[test]
fn relay_ends_when_client_closes() {
    let mut s = RelaySession::for_tls_client();
    assert!(matches!(
        s.on_event(RelayEvent::FromClient(data(b""))),
        RelayAction::Finish(RelayEnd::ClientClosed)
    ));
    assert_eq!(s.phase(), RelayPhase::Finished);
    assert!(matches!(s.on_event(RelayEvent::FromClient(data(b"x"))), RelayAction::Ignored));
}

#[test]
fn relay_ends_when_upstream_closes_or_fails() {
    let mut s = RelaySession::for_tls_client();
    s.on_event(RelayEvent::FromClient(data(b"x")));
    s.on_event(RelayEvent::Delivered(Delivery::Done));
    assert!(matches!(
        s.on_event(RelayEvent::FromUpstream(data(b""))),
        RelayAction::Finish(RelayEnd::UpstreamClosed)
    ));

    let mut s = RelaySession::for_tls_client();
    s.on_event(RelayEvent::FromClient(data(b"x")));
    s.on_event(RelayEvent::Delivered(Delivery::Done));
    match s.on_event(RelayEvent::FromUpstream(ReadEvent::Failed("eof".to_string()))) {
        RelayAction::Finish(RelayEnd::UpstreamReadFailed(m)) => assert_eq!(m, "eof"),
        _ => panic!("expected an upstream read failure"),
    }
}

#[test]
fn relay_ends_on_client_read_error() {
    let mut s = RelaySession::for_tls_upstream();
    match s.on_event(RelayEvent::FromClient(ReadEvent::Failed("reset".to_string()))) {
        RelayAction::Finish(RelayEnd::ClientReadFailed(m)) => assert_eq!(m, "reset"),
        _ => panic!("expected a client read failure"),
    }
}

#[test]
fn plain_to_tls_proxy_ends_quietly_on_write_failure() {
    let mut s = RelaySession::for_tls_upstream();
    s.on_event(RelayEvent::FromClient(data(b"x")));
    match s.on_event(RelayEvent::Delivered(Delivery::WriteFailed("broken".to_string()))) {
        RelayAction::Finish(RelayEnd::SendFailed(Side::Upstream, m)) => assert_eq!(m, "broken"),
        _ => panic!("expected a quiet end"),
    }
    let mut s = RelaySession::for_tls_upstream();
    s.on_event(RelayEvent::FromClient(data(b"x")));
    s.on_event(RelayEvent::Delivered(Delivery::Done));
    s.on_event(RelayEvent::FromUpstream(data(b"x")));
    assert!(matches!(
        s.on_event(RelayEvent::Delivered(Delivery::WriteFailed("gone".to_string()))),
        RelayAction::Finish(RelayEnd::SendFailed(Side::Client, _))
    ));
}

#[test]
fn flush_failure_is_an_error() {
    let mut s = RelaySession::for_tls_upstream();
    s.on_event(RelayEvent::FromClient(data(b"x")));
    match s.on_event(RelayEvent::Delivered(Delivery::FlushFailed("flush".to_string()))) {
        RelayAction::Finish(RelayEnd::Error(m)) => assert_eq!(m, "flush"),
        _ => panic!("expected an error"),
    }
}

#[test]
fn reverse_proxy_write_failure_is_an_error() {
    let mut s = RelaySession::for_tls_client();
    s.on_event(RelayEvent::FromClient(data(b"x")));
    assert!(matches!(
        s.on_event(RelayEvent::Delivered(Delivery::WriteFailed("w".to_string()))),
        RelayAction::Finish(RelayEnd::Error(_))
    ));
}

#[test]
fn relay_ignores_out_of_turn_events() {
    let mut s = RelaySession::for_tls_upstream();
    assert!(matches!(s.on_event(RelayEvent::FromUpstream(data(b"x"))), RelayAction::Ignored));
    assert!(matches!(s.on_event(RelayEvent::Delivered(Delivery::Done)), RelayAction::Ignored));
    assert_eq!(s.phase(), RelayPhase::ReadClient);
    s.on_event(RelayEvent::FromClient(data(b"x")));
    assert!(matches!(s.on_event(RelayEvent::FromClient(data(b"y"))), RelayAction::Ignored));
    assert_eq!(s.phase(), RelayPhase::SendUpstream(1));
}

#[test]
fn forwards_alternate_between_sides() {
    let mut s = RelaySession::for_tls_upstream();
    let mut targets: Vec<Side> = Vec::new();
    let events = vec![
        RelayEvent::FromClient(data(b"1")),
        RelayEvent::FromClient(data(b"2")),
        RelayEvent::Delivered(Delivery::Done),
        RelayEvent::FromClient(data(b"3")),
        RelayEvent::FromUpstream(data(b"4")),
        RelayEvent::Delivered(Delivery::Done),
        RelayEvent::FromClient(data(b"5")),
        RelayEvent::Delivered(Delivery::Done),
        RelayEvent::FromUpstream(data(b"6")),
    ];
    for e in events {
        if let RelayAction::Forward(side, _, _) = s.on_event(e) {
            targets.push(side);
        }
    }
    assert_eq!(targets, vec![Side::Upstream, Side::Client, Side::Upstream, Side::Client]);
}

#[test]
fn handshake_errors() {
    let e = handshake_error(HandshakeFailure::Failure);
    assert_eq!(e.kind, ConnectErrorKind::Other);
    assert_eq!(e.message, "TLS handshake failed");
    let e = handshake_error(HandshakeFailure::WouldBlock);
    assert_eq!(e.kind, ConnectErrorKind::WouldBlock);
    assert_eq!(e.message, "TLS handshake would block");
    let e = handshake_error(HandshakeFailure::SetupFailure);
    assert_eq!(e.kind, ConnectErrorKind::Other);
    assert_eq!(e.message, "TLS setup failed");
}

#[test]
fn reverse_proxy_flushes_only_the_client_side() {
    let mut s = RelaySession::for_tls_client();
    match s.on_event(RelayEvent::FromClient(data(b"req"))) {
        RelayAction::Forward(Side::Upstream, b, flush) => {
            assert_eq!(b, b"req".to_vec());
            assert!(!flush);
        }
        _ => panic!("expected a forward upstream"),
    }
    s.on_event(RelayEvent::Delivered(Delivery::Done));
    match s.on_event(RelayEvent::FromUpstream(data(b"rep"))) {
        RelayAction::Forward(Side::Client, b, flush) => {
            assert_eq!(b, b"rep".to_vec());
            assert!(flush);
        }
        _ => panic!("expected a forward to the client"),
    }
}

#[test]
fn relay_conserves_chunks() {
    let mut s = RelaySession::for_tls_upstream();
    let mut to_upstream: Vec<Vec<u8>> = Vec::new();
    let mut to_client: Vec<Vec<u8>> = Vec::new();
    let events = vec![
        RelayEvent::FromClient(data(b"one")),
        RelayEvent::Delivered(Delivery::Done),
        RelayEvent::FromUpstream(data(b"ONE")),
        RelayEvent::Delivered(Delivery::Done),
        RelayEvent::FromClient(data(b"two")),
        RelayEvent::Delivered(Delivery::Done),
        RelayEvent::FromUpstream(data(b"")),
    ];
    for e in events {
        match s.on_event(e) {
            RelayAction::Forward(Side::Upstream, b, _) => to_upstream.push(b),
            RelayAction::Forward(Side::Client, b, _) => to_client.push(b),
            _ => {}
        }
    }
    assert_eq!(to_upstream, vec![b"one".to_vec(), b"two".to_vec()]);
    assert_eq!(to_client, vec![b"ONE".to_vec()]);
    assert_eq!(s.phase(), RelayPhase::Finished);
}
