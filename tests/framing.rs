use ironrdp_rdcleanpath::der::asn1::OctetString;
use ironrdp_rdcleanpath::{RDCleanPath, RDCleanPathPdu};
use rdp_proxy::{
    assemble_tpkt, decode_request, encode_general_error, encode_response, parse_tpkt_header, ControlPdu,
    GatewayError,
};

#[test]
fn tpkt_header_only_is_accepted() {
    assert_eq!(parse_tpkt_header(&[0x03, 0x00, 0x00, 0x04]), Ok(4));
    let frame = assemble_tpkt(&[0x03, 0x00, 0x00, 0x04], &[]);
    assert_eq!(frame, vec![0x03, 0x00, 0x00, 0x04]);
}

#[test]
fn tpkt_max_length_is_accepted() {
    assert_eq!(parse_tpkt_header(&[0x03, 0x00, 0xff, 0xff]), Ok(65535));
}

#[test]
fn tpkt_wrong_version_is_rejected() {
    assert_eq!(parse_tpkt_header(&[0x02, 0x00, 0x00, 0x13]), Err(GatewayError::UpstreamProtocolError));
    assert_eq!(parse_tpkt_header(&[0x00, 0x00, 0x00, 0x13]), Err(GatewayError::UpstreamProtocolError));
}

#[test]
fn tpkt_length_shorter_than_header_is_rejected() {
    assert_eq!(parse_tpkt_header(&[0x03, 0x00, 0x00, 0x03]), Err(GatewayError::UpstreamProtocolError));
}

#[test]
fn tpkt_length_is_big_endian() {
    assert_eq!(parse_tpkt_header(&[0x03, 0x00, 0x01, 0x02]), Ok(258));
    assert_eq!(parse_tpkt_header(&[0x03, 0x7f, 0x00, 0x13]), Ok(19));
}

#[test]
fn tpkt_frame_keeps_header_then_body() {
    let frame = assemble_tpkt(&[0x03, 0x00, 0x00, 0x07], &[0xaa, 0xbb, 0xcc]);
    assert_eq!(frame, vec![0x03, 0x00, 0x00, 0x07, 0xaa, 0xbb, 0xcc]);
}

fn request_der(destination: &str, x224: Vec<u8>) -> Vec<u8> {
    RDCleanPathPdu::new_request(x224, destination.to_string(), "token".to_string(), None)
        .unwrap()
        .to_der()
        .unwrap()
}

#[test]
fn request_decodes_to_destination_and_x224() {
    let x224 = vec![0x03, 0x00, 0x00, 0x0b, 0x06, 0xe0, 0, 0, 0, 0, 0];
    let q = decode_request(&request_der("10.0.0.5:3389", x224.clone())).unwrap();
    assert_eq!(q.destination, "10.0.0.5:3389");
    assert_eq!(q.x224_connection_request, x224);
}

#[test]
fn single_zero_byte_is_malformed() {
    assert!(matches!(decode_request(&[0x00]), Err(GatewayError::MalformedRequest)));
}

#[test]
fn empty_input_is_malformed() {
    assert!(matches!(decode_request(&[]), Err(GatewayError::MalformedRequest)));
}

#[test]
fn truncated_request_is_malformed() {
    let der = request_der("host:3389", vec![1, 2, 3]);
    assert!(matches!(decode_request(&der[..der.len() - 1]), Err(GatewayError::MalformedRequest)));
}

#[test]
fn request_with_trailing_bytes_is_malformed() {
    let mut der = request_der("host:3389", vec![1, 2, 3]);
    der.push(0);
    assert!(matches!(decode_request(&der), Err(GatewayError::MalformedRequest)));
}

#[test]
fn response_is_not_a_request() {
    let der = encode_response("1.2.3.4:3389".to_string(), vec![3, 0, 0, 4], vec![]).unwrap();
    assert!(matches!(decode_request(&der), Err(GatewayError::MalformedRequest)));
}

#[test]
fn general_error_is_not_a_request() {
    let der = encode_general_error();
    assert!(matches!(decode_request(&der), Err(GatewayError::MalformedRequest)));
}

#[test]
fn response_round_trips() {
    let x224 = vec![0x03, 0x00, 0x00, 0x07, 0x02, 0xf0, 0x80];
    let certs = vec![vec![0x30, 0x82, 0x01], vec![0x30, 0x03]];
    let der = encode_response("10.0.0.5:3389".to_string(), x224.clone(), certs.clone()).unwrap();
    match RDCleanPathPdu::from_der(&der).unwrap().into_enum().unwrap() {
        RDCleanPath::Response { x224_connection_response, server_cert_chain, server_addr } => {
            assert_eq!(server_addr, "10.0.0.5:3389");
            assert_eq!(x224_connection_response.as_bytes(), &x224[..]);
            let chain: Vec<Vec<u8>> = server_cert_chain.iter().map(|c| c.as_bytes().to_vec()).collect();
            assert_eq!(chain, certs);
        }
        _ => panic!("expected a response"),
    }
}

#[test]
fn response_with_empty_chain_round_trips() {
    let der = encode_response("h:1".to_string(), vec![3, 0, 0, 4], vec![]).unwrap();
    match RDCleanPathPdu::from_der(&der).unwrap().into_enum().unwrap() {
        RDCleanPath::Response { server_cert_chain, .. } => assert!(server_cert_chain.is_empty()),
        _ => panic!("expected a response"),
    }
}

#[test]
fn general_error_round_trips() {
    let der = ControlPdu::GeneralError.encode().unwrap();
    assert_eq!(der, encode_general_error());
    match RDCleanPathPdu::from_der(&der).unwrap().into_enum().unwrap() {
        RDCleanPath::GeneralErr(e) => assert_eq!(e.error_code, ironrdp_rdcleanpath::GENERAL_ERROR_CODE),
        _ => panic!("expected a general error"),
    }
}

#[test]
fn general_error_bytes_are_fixed() {
    assert_eq!(
        encode_general_error(),
        vec![0x30, 0x0f, 0xa0, 0x04, 0x02, 0x02, 0x0d, 0x3e, 0xa1, 0x07, 0x30, 0x05, 0xa0, 0x03, 0x02, 0x01, 0x01]
    );
}

#[test]
fn request_without_proxy_auth_is_accepted() {
    let pdu = RDCleanPathPdu {
        destination: Some("rdp.example:3389".to_string()),
        x224_connection_pdu: Some(OctetString::new(vec![3, 0, 0, 4]).unwrap()),
        ..Default::default()
    };
    let q = decode_request(&pdu.to_der().unwrap()).unwrap();
    assert_eq!(q.destination, "rdp.example:3389");
    assert_eq!(q.x224_connection_request, vec![3, 0, 0, 4]);
}

#[test]
fn request_without_x224_is_malformed() {
    let pdu = RDCleanPathPdu { destination: Some("rdp.example:3389".to_string()), ..Default::default() };
    assert!(matches!(decode_request(&pdu.to_der().unwrap()), Err(GatewayError::MalformedRequest)));
}

#[test]
fn gateway_errors_describe_themselves() {
    assert_eq!(GatewayError::UpstreamUnreachable.describe(), "failed to connect to RDP server");
    assert!(GatewayError::MalformedRequest.reports_to_client());
    assert!(!GatewayError::ClientAbandoned.reports_to_client());
}
