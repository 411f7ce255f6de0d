use log_emitter::emitter::{
    Destination, DestinationError, MAX_UDP_PACKET_SIZE, SocketSender, parse_destination,
    prepare_datagram_payload,
};

#[test]
fn parse_tcp_full_scheme() {
    match parse_destination(b"tcp://127.0.0.1:514") {
        Ok(Destination::Tcp { addr }) => assert_eq!(addr, b"127.0.0.1:514".to_vec()),
        other => panic!("unexpected: {:?}", other.is_ok()),
    }
}

#[test]
fn parse_tcp_short_scheme() {
    match parse_destination(b"tcp:10.0.0.1:601") {
        Ok(Destination::Tcp { addr }) => assert_eq!(addr, b"10.0.0.1:601".to_vec()),
        _ => panic!("expected tcp"),
    }
}

#[test]
fn parse_udp_full_scheme() {
    match parse_destination(b"udp://[::1]:514") {
        Ok(Destination::Udp { addr }) => assert_eq!(addr, b"[::1]:514".to_vec()),
        _ => panic!("expected udp"),
    }
}

#[test]
fn parse_udp_short_scheme() {
    match parse_destination(b"udp:1.2.3.4:514") {
        Ok(Destination::Udp { addr }) => assert_eq!(addr, b"1.2.3.4:514".to_vec()),
        _ => panic!("expected udp"),
    }
}

#[test]
fn parse_file_full_scheme_skips_parent_check() {
    match parse_destination(b"file:///var/log/out.log") {
        Ok(Destination::File { path, verify_parent }) => {
            assert_eq!(path, b"/var/log/out.log".to_vec());
            assert!(!verify_parent);
        }
        _ => panic!("expected file"),
    }
}

#[test]
fn parse_file_short_scheme_requires_parent_check() {
    match parse_destination(b"file:/var/log/out.log") {
        Ok(Destination::File { path, verify_parent }) => {
            assert_eq!(path, b"/var/log/out.log".to_vec());
            assert!(verify_parent);
        }
        _ => panic!("expected file"),
    }
}

#[test]
fn parse_unknown_scheme_is_refused() {
    for u in [&b"http://x:1"[..], b"", b"tc", b"syslog://h:514"] {
        match parse_destination(u) {
            Err(DestinationError::UnknownScheme) => {}
            _ => panic!("expected refusal for {:?}", u),
        }
    }
}

#[test]
fn oversized_datagram_is_cut_to_exact_limit() {
    let mut rec = vec![b'a'; MAX_UDP_PACKET_SIZE + 10];
    *rec.last_mut().unwrap() = b'\n';
    let payload = prepare_datagram_payload(&rec);
    assert_eq!(payload.len(), MAX_UDP_PACKET_SIZE);
    assert_eq!(&payload[..], &rec[..MAX_UDP_PACKET_SIZE]);
}

#[test]
fn small_datagram_loses_only_delimiter() {
    let payload = prepare_datagram_payload(b"abc\n");
    assert_eq!(payload, b"abc".to_vec());
}

#[test]
fn datagram_at_exact_limit_loses_only_delimiter() {
    let mut rec = vec![b'a'; MAX_UDP_PACKET_SIZE];
    *rec.last_mut().unwrap() = b'\n';
    let payload = prepare_datagram_payload(&rec);
    assert_eq!(payload.len(), MAX_UDP_PACKET_SIZE - 1);
    assert_eq!(&payload[..], &rec[..MAX_UDP_PACKET_SIZE - 1]);
}

#[test]
fn sender_url_and_protocol() {
    let t = SocketSender::tcp(b"1.2.3.4:514".to_vec());
    assert_eq!(t.protocol(), "tcp");
    assert_eq!(t.url(), b"tcp://1.2.3.4:514".to_vec());
    assert_eq!(t.socket_addr(), &b"1.2.3.4:514".to_vec());
    let u = SocketSender::udp(b"h:1".to_vec());
    assert_eq!(u.protocol(), "udp");
    assert_eq!(u.url(), b"udp://h:1".to_vec());
}

#[test]
fn reconnect_retry_delivers_exactly_once() {
    // The record's send is attempted against the connection state machine:
    // a handful of failures, then a success.
    let outcomes = [false, false, false, false, true];
    let mut sender = SocketSender::tcp(b"h:514".to_vec());
    let mut deliveries = 0usize;
    for ok in outcomes {
        sender.note_connected();
        let done = sender.on_send_result(ok);
        if done {
            deliveries += 1;
            break;
        }
    }
    assert_eq!(deliveries, 1);
}

#[test]
fn failed_send_drops_the_connection() {
    let mut sender = SocketSender::udp(b"h:514".to_vec());
    sender.note_connected();
    let done = sender.on_send_result(false);
    assert!(!done);
    // The next attempt must rebind first; a success then finishes.
    sender.note_connected();
    assert!(sender.on_send_result(true));
}
