use ironrdp_rdcleanpath::RDCleanPathPdu;
use rdp_proxy::{
    reported_server_addr, tls_hostname, Action, Broker, ClientMessage, ControlPdu, Downlink, DownlinkAction,
    DownlinkEvent, Event, GatewayError, Phase, Uplink, UplinkAction, UplinkEvent, UpstreamRead,
};

fn request_der(destination: &str, x224: Vec<u8>) -> Vec<u8> {
    RDCleanPathPdu::new_request(x224, destination.to_string(), "token".to_string(), None)
        .unwrap()
        .to_der()
        .unwrap()
}

fn x224_request() -> Vec<u8> {
    let mut v = vec![0x03, 0x00, 0x00, 0x2a];
    v.extend(std::iter::repeat(0x11).take(0x2a - 4));
    v
}

fn x224_confirm() -> Vec<u8> {
    let mut v = vec![0x03, 0x00, 0x00, 0x13];
    v.extend((0..15).map(|i| i as u8));
    v
}

/// Drives a broker up to the TLS phase; returns it and the hostname it asked TLS for.
fn broker_at_tls(destination: &str, confirm: &[u8]) -> (Broker, String) {
    let mut b = Broker::new();
    match b.step(Event::Client(ClientMessage::Binary(request_der(destination, x224_request())))) {
        Action::Dial(d) => assert_eq!(d, destination),
        _ => panic!("expected a dial"),
    }
    match b.step(Event::Connected { peer_addr: Some(destination.to_string()) }) {
        Action::WriteUpstream(bytes) => assert_eq!(bytes, x224_request()),
        _ => panic!("expected the X.224 request to be written"),
    }
    match b.step(Event::RequestWritten) {
        Action::ReadUpstream(n) => assert_eq!(n, 4),
        _ => panic!("expected a header read"),
    }
    let host = match b.step(Event::UpstreamBytes(confirm[..4].to_vec())) {
        Action::ReadUpstream(n) => {
            assert_eq!(n, confirm.len() - 4);
            match b.step(Event::UpstreamBytes(confirm[4..].to_vec())) {
                Action::StartTls(h) => h,
                _ => panic!("expected TLS to start"),
            }
        }
        Action::StartTls(h) => h,
        _ => panic!("expected a body read or TLS"),
    };
    assert_eq!(b.phase(), Phase::Tls);
    (b, host)
}

#[test]
fn happy_path_handshake_and_relay() {
    let confirm = x224_confirm();
    assert_eq!(confirm.len(), 19);
    let (mut b, host) = broker_at_tls("10.0.0.5:3389", &confirm);
    assert_eq!(host, "10.0.0.5");
    let leaf = vec![0x30, 0x82, 0x02, 0x10, 0xAB];
    match b.step(Event::TlsEstablished { certs: vec![leaf.clone()] }) {
        Action::SendControl(ControlPdu::Response { server_addr, x224_connection_response, server_cert_chain }) => {
            assert_eq!(server_addr, "10.0.0.5:3389");
            assert_eq!(x224_connection_response, confirm);
            assert_eq!(server_cert_chain, vec![leaf]);
        }
        _ => panic!("expected the response PDU"),
    }
    assert_eq!(b.phase(), Phase::Relaying);

    let mut up = Uplink::new();
    match up.step(UplinkEvent::Client(ClientMessage::Binary(vec![0xAA, 0xBB]))) {
        UplinkAction::Write(bytes) => assert_eq!(bytes, vec![0xAA, 0xBB]),
        _ => panic!("expected a write upstream"),
    }
    let mut down = Downlink::new();
    match down.step(DownlinkEvent::Read(UpstreamRead::Data(vec![0xCC]))) {
        DownlinkAction::Send(bytes) => assert_eq!(bytes, vec![0xCC]),
        _ => panic!("expected one binary message"),
    }
}

#[test]
fn malformed_pdu_gets_general_error_without_dial() {
    let mut b = Broker::new();
    let a = b.step(Event::Client(ClientMessage::Binary(vec![0x00])));
    assert!(matches!(a, Action::SendControl(ControlPdu::GeneralError)));
    assert!(b.is_closed());
    assert_eq!(b.error(), Some(GatewayError::MalformedRequest));
    assert!(matches!(b.step(Event::Connected { peer_addr: None }), Action::Idle));
}

#[test]
fn unreachable_upstream_gets_general_error() {
    let mut b = Broker::new();
    assert!(matches!(
        b.step(Event::Client(ClientMessage::Binary(request_der("127.0.0.1:1", x224_request())))),
        Action::Dial(_)
    ));
    let a = b.step(Event::ConnectFailed);
    assert!(matches!(a, Action::SendControl(ControlPdu::GeneralError)));
    assert_eq!(b.error(), Some(GatewayError::UpstreamUnreachable));
    assert_eq!(b.destination(), "127.0.0.1:1");
    assert!(b.is_closed());
}

#[test]
fn truncated_x224_response_is_protocol_error() {
    let mut b = Broker::new();
    b.step(Event::Client(ClientMessage::Binary(request_der("h:3389", x224_request()))));
    b.step(Event::Connected { peer_addr: None });
    b.step(Event::RequestWritten);
    // only three bytes arrived before EOF: the exact read of four fails
    let a = b.step(Event::UpstreamFailed);
    assert!(matches!(a, Action::SendControl(ControlPdu::GeneralError)));
    assert_eq!(b.error(), Some(GatewayError::UpstreamProtocolError));
}

#[test]
fn short_body_is_protocol_error() {
    let mut b = Broker::new();
    b.step(Event::Client(ClientMessage::Binary(request_der("h:3389", x224_request()))));
    b.step(Event::Connected { peer_addr: None });
    b.step(Event::RequestWritten);
    assert!(matches!(b.step(Event::UpstreamBytes(vec![3, 0, 0, 8])), Action::ReadUpstream(4)));
    let a = b.step(Event::UpstreamBytes(vec![1, 2, 3]));
    assert!(matches!(a, Action::SendControl(ControlPdu::GeneralError)));
    assert_eq!(b.error(), Some(GatewayError::UpstreamProtocolError));
}

#[test]
fn wrong_tpkt_version_from_upstream_is_protocol_error() {
    let mut b = Broker::new();
    b.step(Event::Client(ClientMessage::Binary(request_der("h:3389", x224_request()))));
    b.step(Event::Connected { peer_addr: None });
    b.step(Event::RequestWritten);
    let a = b.step(Event::UpstreamBytes(vec![0x02, 0x00, 0x00, 0x13]));
    assert!(matches!(a, Action::SendControl(ControlPdu::GeneralError)));
    assert_eq!(b.error(), Some(GatewayError::UpstreamProtocolError));
}

#[test]
fn header_only_confirm_goes_straight_to_tls() {
    let (mut b, host) = broker_at_tls("rdp.example:3389", &[0x03, 0x00, 0x00, 0x04]);
    assert_eq!(host, "rdp.example");
    match b.step(Event::TlsEstablished { certs: vec![] }) {
        Action::SendControl(ControlPdu::Response { x224_connection_response, server_cert_chain, .. }) => {
            assert_eq!(x224_connection_response, vec![0x03, 0x00, 0x00, 0x04]);
            assert!(server_cert_chain.is_empty());
        }
        _ => panic!("expected the response PDU"),
    }
}

#[test]
fn empty_certificate_chain_is_reported_empty() {
    let (mut b, _) = broker_at_tls("10.0.0.5:3389", &x224_confirm());
    match b.step(Event::TlsEstablished { certs: vec![] }) {
        Action::SendControl(ControlPdu::Response { server_cert_chain, .. }) => assert!(server_cert_chain.is_empty()),
        _ => panic!("expected the response PDU"),
    }
}

#[test]
fn tls_failure_gets_general_error() {
    let (mut b, _) = broker_at_tls("10.0.0.5:3389", &x224_confirm());
    assert!(matches!(b.step(Event::TlsFailed), Action::SendControl(ControlPdu::GeneralError)));
    assert_eq!(b.error(), Some(GatewayError::TlsFailure));
}

#[test]
fn close_before_request_sends_no_pdu() {
    let mut b = Broker::new();
    assert!(matches!(b.step(Event::Client(ClientMessage::Close)), Action::Shutdown));
    assert!(b.is_closed());
    assert_eq!(b.error(), Some(GatewayError::ClientAbandoned));
}

#[test]
fn read_error_before_request_sends_no_pdu() {
    let mut b = Broker::new();
    assert!(matches!(b.step(Event::Client(ClientMessage::Error)), Action::Shutdown));
    assert_eq!(b.error(), Some(GatewayError::ClientAbandoned));
}

#[test]
fn half_close_delivers_data_then_closes() {
    let (mut b, _) = broker_at_tls("10.0.0.5:3389", &x224_confirm());
    assert!(matches!(b.step(Event::TlsEstablished { certs: vec![] }), Action::SendControl(_)));
    let mut down = Downlink::new();
    match down.step(DownlinkEvent::Read(UpstreamRead::Data(vec![0x01, 0x02]))) {
        DownlinkAction::Send(bytes) => assert_eq!(bytes, vec![0x01, 0x02]),
        _ => panic!("expected one binary message"),
    }
    assert!(matches!(down.step(DownlinkEvent::Read(UpstreamRead::Data(vec![]))), DownlinkAction::Finish));
    assert!(down.is_ended());
    assert!(matches!(down.step(DownlinkEvent::Read(UpstreamRead::Data(vec![9]))), DownlinkAction::Idle));
    assert!(matches!(b.step(Event::RelayEnded), Action::Shutdown));
    assert!(b.is_closed());
    assert_eq!(b.error(), None);
}

#[test]
fn ping_during_handshake_is_answered_before_response() {
    let mut b = Broker::new();
    match b.step(Event::Client(ClientMessage::Ping(vec![7, 7]))) {
        Action::SendPong(p) => assert_eq!(p, vec![7, 7]),
        _ => panic!("expected a pong"),
    }
    assert_eq!(b.phase(), Phase::AwaitingRequest);
    assert!(matches!(b.step(Event::Client(ClientMessage::Text("hi".to_string()))), Action::Receive));
    assert!(matches!(
        b.step(Event::Client(ClientMessage::Binary(request_der("10.0.0.5:3389", x224_request())))),
        Action::Dial(_)
    ));
    b.step(Event::Connected { peer_addr: Some("10.0.0.5:3389".to_string()) });
    b.step(Event::RequestWritten);
    b.step(Event::UpstreamBytes(x224_confirm()[..4].to_vec()));
    b.step(Event::UpstreamBytes(x224_confirm()[4..].to_vec()));
    match b.step(Event::TlsEstablished { certs: vec![vec![1]] }) {
        Action::SendControl(ControlPdu::Response { x224_connection_response, .. }) => {
            assert_eq!(x224_connection_response, x224_confirm())
        }
        _ => panic!("expected the response PDU"),
    }
}

#[test]
fn only_one_control_pdu_per_session() {
    let (mut b, _) = broker_at_tls("10.0.0.5:3389", &x224_confirm());
    assert!(matches!(b.step(Event::TlsEstablished { certs: vec![] }), Action::SendControl(_)));
    assert!(matches!(b.step(Event::TlsFailed), Action::Idle));
    assert!(matches!(b.step(Event::ConnectFailed), Action::Idle));
    assert!(matches!(b.step(Event::SendFailed), Action::Shutdown));
    assert_eq!(b.error(), Some(GatewayError::RelayTransportError));
    assert!(matches!(b.step(Event::Client(ClientMessage::Binary(vec![0]))), Action::Idle));
}

#[test]
fn uplink_concatenates_payloads_in_order() {
    let mut up = Uplink::new();
    let inputs = vec![
        UplinkEvent::Client(ClientMessage::Binary(vec![1, 2])),
        UplinkEvent::Client(ClientMessage::Text("ignored".to_string())),
        UplinkEvent::Client(ClientMessage::Ping(vec![5])),
        UplinkEvent::Client(ClientMessage::Binary(vec![3])),
        UplinkEvent::Client(ClientMessage::Close),
        UplinkEvent::Client(ClientMessage::Binary(vec![4])),
    ];
    let mut written = Vec::new();
    let mut finishes = 0;
    for e in inputs {
        match up.step(e) {
            UplinkAction::Write(b) => written.extend(b),
            UplinkAction::Finish => finishes += 1,
            _ => {}
        }
    }
    assert_eq!(written, vec![1, 2, 3]);
    assert_eq!(finishes, 1);
    assert!(up.is_ended());
}

#[test]
fn uplink_write_failure_ends_direction() {
    let mut up = Uplink::new();
    assert!(matches!(up.step(UplinkEvent::WriteFailed), UplinkAction::Finish));
    assert!(matches!(up.step(UplinkEvent::Client(ClientMessage::Binary(vec![1]))), UplinkAction::Idle));
}

#[test]
fn downlink_keeps_read_boundaries() {
    let mut down = Downlink::new();
    let mut sent = Vec::new();
    for chunk in [vec![1u8, 2, 3], vec![4], vec![5, 6]] {
        if let DownlinkAction::Send(b) = down.step(DownlinkEvent::Read(UpstreamRead::Data(chunk))) {
            sent.push(b);
        }
    }
    assert_eq!(sent, vec![vec![1, 2, 3], vec![4], vec![5, 6]]);
    assert!(matches!(down.step(DownlinkEvent::Read(UpstreamRead::Error)), DownlinkAction::Finish));
}

#[test]
fn downlink_send_failure_ends_direction() {
    let mut down = Downlink::new();
    assert!(matches!(down.step(DownlinkEvent::SendFailed), DownlinkAction::Finish));
    assert!(down.is_ended());
}

#[test]
fn hostname_is_text_before_first_colon() {
    assert_eq!(tls_hostname("10.0.0.5:3389"), "10.0.0.5");
    assert_eq!(tls_hostname("server"), "server");
    assert_eq!(tls_hostname(":3389"), "");
    assert_eq!(tls_hostname("[fe80::1]:3389"), "[fe80");
}

#[test]
fn server_addr_falls_back_to_destination() {
    assert_eq!(reported_server_addr(Some("1.2.3.4:3389".to_string()), "rdp:3389"), "1.2.3.4:3389");
    assert_eq!(reported_server_addr(None, "rdp:3389"), "rdp:3389");
}

#[test]
fn server_addr_from_peer_is_reported() {
    let mut b = Broker::new();
    b.step(Event::Client(ClientMessage::Binary(request_der("rdp.example:3389", x224_request()))));
    b.step(Event::Connected { peer_addr: None });
    b.step(Event::RequestWritten);
    b.step(Event::UpstreamBytes(vec![3, 0, 0, 4]));
    match b.step(Event::TlsEstablished { certs: vec![] }) {
        Action::SendControl(ControlPdu::Response { server_addr, .. }) => assert_eq!(server_addr, "rdp.example:3389"),
        _ => panic!("expected the response PDU"),
    }
}
