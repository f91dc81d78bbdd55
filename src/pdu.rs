use vstd::prelude::*;

use ironrdp_rdcleanpath::RDCleanPathPdu;

use crate::error::GatewayError;

verus! {

/// The fields of an RDCleanPath request that the gateway acts on.
pub struct RdpRequest {
    /// `host:port` of the RDP server.
    pub destination: String,
    /// The client's X.224 connection request, forwarded verbatim.
    pub x224_connection_request: Vec<u8>,
}

/// A control PDU the gateway sends to the client.
pub enum ControlPdu {
    /// The handshake witness: resolved address, X.224 confirm, certificates.
    Response {
        server_addr: String,
        x224_connection_response: Vec<u8>,
        server_cert_chain: Vec<Vec<u8>>,
    },
    /// A failure before the relay started.
    GeneralError,
}

/// The mathematical content of a control PDU.
pub enum ControlView {
    Response { server_addr: Seq<char>, x224: Seq<u8>, certs: Seq<Seq<u8>> },
    GeneralError,
}

pub open spec fn certs_view(certs: Seq<Vec<u8>>) -> Seq<Seq<u8>> {
    certs.map_values(|c: Vec<u8>| c@)
}

impl View for ControlPdu {
    type V = ControlView;

    open spec fn view(&self) -> ControlView {
        match self {
            ControlPdu::Response { server_addr, x224_connection_response, server_cert_chain } =>
                ControlView::Response {
                    server_addr: server_addr@,
                    x224: x224_connection_response@,
                    certs: certs_view(server_cert_chain@),
                },
            ControlPdu::GeneralError => ControlView::GeneralError,
        }
    }
}

/// What `RDCleanPathPdu::from_der` yields for these bytes: `None` when they
/// are not one complete DER RDCleanPath PDU, else its `destination` and
/// `x224_connection_pdu` fields.
pub uninterp spec fn pdu_fields_of_der(der: Seq<u8>) -> Option<(Option<Seq<char>>, Option<Seq<u8>>)>;

/// The destination and X.224 request of a DER-encoded RDCleanPath request:
/// a complete PDU that carries both fields. Other fields are ignored.
pub open spec fn request_of_der(der: Seq<u8>) -> Option<(Seq<char>, Seq<u8>)> {
    match pdu_fields_of_der(der) {
        Some((Some(d), Some(x))) => Some((d, x)),
        _ => None,
    }
}

/// The DER encoding of an RDCleanPath response with these fields, or `None`
/// when the encoder refuses them.
pub uninterp spec fn response_der(server_addr: Seq<char>, x224: Seq<u8>, certs: Seq<Seq<u8>>) -> Option<Seq<u8>>;

/// Encoded size budget of a certificate list: each certificate plus room for
/// its tag and length.
pub open spec fn certs_budget(certs: Seq<Seq<u8>>) -> nat
    decreases certs.len(),
{
    if certs.len() == 0 {
        0
    } else {
        certs_budget(certs.drop_last()) + certs.last().len() + 8
    }
}

/// The largest length DER values may have here (256 MiB - 1).
pub const DER_MAX_LEN: u64 = 0x0fff_ffff;

/// A response whose encoding stays under the DER length limit: at most four
/// bytes per address character, the X.224 bytes, the certificates, and room
/// for every tag, length and the version number.
pub open spec fn response_fits(server_addr: Seq<char>, x224: Seq<u8>, certs: Seq<Seq<u8>>) -> bool {
    4 * server_addr.len() + x224.len() + certs_budget(certs) + 128 <= DER_MAX_LEN
}

/// The DER encoding of the GeneralError PDU: version 3390 and error code 1.
pub open spec fn general_error_der() -> Seq<u8> {
    seq![0x30u8, 0x0f, 0xa0, 0x04, 0x02, 0x02, 0x0d, 0x3e, 0xa1, 0x07, 0x30, 0x05, 0xa0, 0x03, 0x02, 0x01, 0x01]
}

/// Relies on `RDCleanPathPdu::from_der`: whether the bytes decode, and the
/// two fields read off the decoded PDU, depend on the bytes alone.
#[verifier::external_body]
fn der_to_fields(bytes: &[u8]) -> (r: Option<(Option<String>, Option<Vec<u8>>)>)
    ensures
        r is None <==> pdu_fields_of_der(bytes@) is None,
        r matches Some((d, x)) ==> pdu_fields_of_der(bytes@) == Some((
            match d { Some(s) => Some(s@), None => None::<Seq<char>> },
            match x { Some(v) => Some(v@), None => None::<Seq<u8>> },
        )),
{
    RDCleanPathPdu::from_der(bytes).ok().map(|p| (p.destination, p.x224_connection_pdu.map(|o| o.into_bytes())))
}

/// Relies on `RDCleanPathPdu::new_response` followed by `RDCleanPathPdu::to_der`.
/// The outcome depends on the fields alone. `new_response` fails only for an
/// octet string over `Length::MAX`, and `to_der` only when a length passes it,
/// which a response within `response_fits` cannot do.
#[verifier::external_body]
fn response_to_der(server_addr: String, x224: Vec<u8>, certs: Vec<Vec<u8>>) -> (r: Option<Vec<u8>>)
    ensures
        r matches Some(b) ==> response_der(server_addr@, x224@, certs_view(certs@)) == Some(b@),
        r is None ==> response_der(server_addr@, x224@, certs_view(certs@)) is None,
        response_fits(server_addr@, x224@, certs_view(certs@)) ==> r is Some,
{
    RDCleanPathPdu::new_response(server_addr, x224, certs).ok()?.to_der().ok()
}

/// Relies on `RDCleanPathPdu::new_general_error` followed by `RDCleanPathPdu::to_der`:
/// a fixed PDU of version 3390 with error code 1 and no optional field.
#[verifier::external_body]
fn general_error_to_der() -> (r: Option<Vec<u8>>)
    ensures
        bytes_view(r) == Some(general_error_der()),
{
    RDCleanPathPdu::new_general_error().to_der().ok()
}

/// Decodes the client's first binary message. Anything that is not a
/// complete DER RDCleanPath PDU with a destination and an X.224 request is a
/// malformed request.
pub fn decode_request(bytes: &[u8]) -> (r: Result<RdpRequest, GatewayError>)
    ensures
        r is Ok <==> request_of_der(bytes@) is Some,
        r matches Ok(q) ==> request_of_der(bytes@) == Some((q.destination@, q.x224_connection_request@)),
        r matches Err(e) ==> e == GatewayError::MalformedRequest,
{
    match der_to_fields(bytes) {
        Some((Some(destination), Some(x224_connection_request))) => Ok(RdpRequest { destination, x224_connection_request }),
        _ => Err(GatewayError::MalformedRequest),
    }
}

/// Encodes a response PDU; it succeeds whenever the response fits the DER
/// length limit.
pub fn encode_response(server_addr: String, x224_connection_response: Vec<u8>, server_cert_chain: Vec<Vec<u8>>) -> (r: Option<Vec<u8>>)
    ensures
        r matches Some(b) ==> response_der(server_addr@, x224_connection_response@, certs_view(server_cert_chain@)) == Some(b@),
        r is None ==> response_der(server_addr@, x224_connection_response@, certs_view(server_cert_chain@)) is None,
        response_fits(server_addr@, x224_connection_response@, certs_view(server_cert_chain@)) ==> r is Some,
{
    response_to_der(server_addr, x224_connection_response, server_cert_chain)
}

/// Encodes the GeneralError PDU.
pub fn encode_general_error() -> (r: Vec<u8>)
    ensures
        r@ == general_error_der(),
{
    match general_error_to_der() {
        Some(b) => b,
        None => Vec::new(),
    }
}

/// The bytes an optional buffer holds.
pub open spec fn bytes_view(o: Option<Vec<u8>>) -> Option<Seq<u8>> {
    match o {
        Some(b) => Some(b@),
        None => None,
    }
}

/// The DER bytes of a control PDU, when the encoder accepts it.
pub open spec fn control_der(p: ControlView) -> Option<Seq<u8>> {
    match p {
        ControlView::Response { server_addr, x224, certs } => response_der(server_addr, x224, certs),
        ControlView::GeneralError => Some(general_error_der()),
    }
}

impl ControlPdu {
    /// The DER bytes of this control PDU, if the encoder accepts it.
    pub fn encode(self) -> (r: Option<Vec<u8>>)
        ensures
            bytes_view(r) == control_der(self@),
            self@ matches ControlView::Response { server_addr, x224, certs }
                ==> (response_fits(server_addr, x224, certs) ==> r is Some),
    {
        match self {
            ControlPdu::Response { server_addr, x224_connection_response, server_cert_chain } =>
                encode_response(server_addr, x224_connection_response, server_cert_chain),
            ControlPdu::GeneralError => Some(encode_general_error()),
        }
    }
}

} // verus!
