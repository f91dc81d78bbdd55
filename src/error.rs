use vstd::prelude::*;

verus! {

/// What went wrong in one gateway session.
#[derive(Debug, Clone, Copy, PartialEq, Eq, Structural)]
pub enum GatewayError {
    /// The WebSocket closed before the request PDU arrived.
    ClientAbandoned,
    /// The request PDU could not be decoded or was not a request.
    MalformedRequest,
    /// Name resolution or TCP connect to the destination failed.
    UpstreamUnreachable,
    /// The X.224 confirm was truncated, invalid or did not arrive.
    UpstreamProtocolError,
    /// The TLS handshake with the upstream failed.
    TlsFailure,
    /// A read or write failed while relaying.
    RelayTransportError,
}

/// The description of each failure in log lines.
pub open spec fn description_of(e: GatewayError) -> Seq<char> {
    match e {
        GatewayError::ClientAbandoned => "connection closed before RDCleanPath request"@,
        GatewayError::MalformedRequest => "malformed RDCleanPath request"@,
        GatewayError::UpstreamUnreachable => "failed to connect to RDP server"@,
        GatewayError::UpstreamProtocolError => "invalid X.224 response from RDP server"@,
        GatewayError::TlsFailure => "TLS handshake with RDP server failed"@,
        GatewayError::RelayTransportError => "relay transport error"@,
    }
}

impl GatewayError {
    /// Whether the client is owed a GeneralError PDU for this failure.
    pub open spec fn reports_to_client_spec(self) -> bool {
        match self {
            GatewayError::ClientAbandoned => false,
            GatewayError::RelayTransportError => false,
            _ => true,
        }
    }

    #[verifier::when_used_as_spec(reports_to_client_spec)]
    pub fn reports_to_client(self) -> (r: bool)
        ensures
            r == self.reports_to_client_spec(),
    {
        match self {
            GatewayError::ClientAbandoned => false,
            GatewayError::RelayTransportError => false,
            _ => true,
        }
    }

    /// A short description for log lines.
    pub fn describe(self) -> (r: &'static str)
        ensures
            r@ == description_of(self),
    {
        match self {
            GatewayError::ClientAbandoned => "connection closed before RDCleanPath request",
            GatewayError::MalformedRequest => "malformed RDCleanPath request",
            GatewayError::UpstreamUnreachable => "failed to connect to RDP server",
            GatewayError::UpstreamProtocolError => "invalid X.224 response from RDP server",
            GatewayError::TlsFailure => "TLS handshake with RDP server failed",
            GatewayError::RelayTransportError => "relay transport error",
        }
    }
}

} // verus!
