use vstd::prelude::*;

use crate::error::GatewayError;
use crate::pdu::{certs_view, decode_request, request_of_der, ControlPdu, ControlView};
use crate::tpkt::{assemble_tpkt, parse_tpkt_header, tpkt_header_ok, tpkt_length_spec, TPKT_HEADER_LEN};

verus! {

/// Where a session stands.
#[derive(Debug, Clone, Copy, PartialEq, Eq, Structural)]
pub enum Phase {
    AwaitingRequest,
    Dialing,
    X224,
    Tls,
    Relaying,
    Closed,
}

/// Progress of the X.224 exchange inside [`Phase::X224`].
#[derive(Debug, Clone, Copy, PartialEq, Eq, Structural)]
pub enum Stage {
    SendingRequest,
    ReadingHeader,
    ReadingBody,
}

/// A WebSocket message from the browser, or the end of its stream.
pub enum ClientMessage {
    Binary(Vec<u8>),
    Text(String),
    Ping(Vec<u8>),
    Pong(Vec<u8>),
    /// A Close frame, or the stream ended.
    Close,
    /// Reading the next message failed.
    Error,
}

/// What the transports reported back to the broker.
pub enum Event {
    Client(ClientMessage),
    /// TCP connect succeeded; the numeric peer address, if known.
    Connected { peer_addr: Option<String> },
    /// Resolution or connect failed.
    ConnectFailed,
    /// The X.224 request was written in full.
    RequestWritten,
    /// Exactly the bytes that the last read was asked for.
    UpstreamBytes(Vec<u8>),
    /// An upstream write or read failed, hit EOF mid-frame or timed out.
    UpstreamFailed,
    /// The TLS handshake finished; the peer certificates in DER, in order.
    TlsEstablished { certs: Vec<Vec<u8>> },
    TlsFailed,
    /// Sending the response PDU failed.
    SendFailed,
    /// One of the relay directions terminated.
    RelayEnded,
}

/// What the broker asks the transports to do next.
pub enum Action {
    /// Nothing: the event did not apply in this phase.
    Idle,
    /// Read the next WebSocket message.
    Receive,
    SendPong(Vec<u8>),
    /// Open TCP to this `host:port`.
    Dial(String),
    /// Write these bytes to the upstream socket in full.
    WriteUpstream(Vec<u8>),
    /// Read exactly this many bytes from upstream.
    ReadUpstream(usize),
    /// Wrap the socket in TLS with this server name.
    StartTls(String),
    /// Send this PDU as one binary WebSocket message.
    SendControl(ControlPdu),
    /// Close the WebSocket and the upstream stream.
    Shutdown,
}

pub enum ActionView {
    Idle,
    Receive,
    SendPong(Seq<u8>),
    Dial(Seq<char>),
    WriteUpstream(Seq<u8>),
    ReadUpstream(nat),
    StartTls(Seq<char>),
    SendControl(ControlView),
    Shutdown,
}

impl View for Action {
    type V = ActionView;

    open spec fn view(&self) -> ActionView {
        match self {
            Action::Idle => ActionView::Idle,
            Action::Receive => ActionView::Receive,
            Action::SendPong(p) => ActionView::SendPong(p@),
            Action::Dial(d) => ActionView::Dial(d@),
            Action::WriteUpstream(b) => ActionView::WriteUpstream(b@),
            Action::ReadUpstream(n) => ActionView::ReadUpstream(*n as nat),
            Action::StartTls(h) => ActionView::StartTls(h@),
            Action::SendControl(p) => ActionView::SendControl(p@),
            Action::Shutdown => ActionView::Shutdown,
        }
    }
}

pub struct BrokerView {
    pub phase: Phase,
    pub stage: Stage,
    pub destination: Seq<char>,
    pub x224_request: Seq<u8>,
    pub server_addr: Seq<char>,
    pub x224_response: Seq<u8>,
    pub frame_len: nat,
    pub error: Option<GatewayError>,
}

/// The handshake broker of one session.
pub struct Broker {
    phase: Phase,
    stage: Stage,
    destination: String,
    x224_request: Vec<u8>,
    server_addr: String,
    x224_response: Vec<u8>,
    frame_len: usize,
    error: Option<GatewayError>,
}

impl View for Broker {
    type V = BrokerView;

    closed spec fn view(&self) -> BrokerView {
        BrokerView {
            phase: self.phase,
            stage: self.stage,
            destination: self.destination@,
            x224_request: self.x224_request@,
            server_addr: self.server_addr@,
            x224_response: self.x224_response@,
            frame_len: self.frame_len as nat,
            error: self.error,
        }
    }
}

/// Index of the first `:` at or after `i`, or the length if there is none.
pub open spec fn first_colon_from(s: Seq<char>, i: int) -> int
    decreases s.len() - i,
{
    if i < 0 || i >= s.len() {
        s.len() as int
    } else if s[i] == ':' {
        i
    } else {
        first_colon_from(s, i + 1)
    }
}

/// The host part of `host:port`: everything before the first colon.
pub open spec fn host_of(destination: Seq<char>) -> Seq<char> {
    destination.subrange(0, first_colon_from(destination, 0))
}

pub open spec fn initial_view() -> BrokerView {
    BrokerView {
        phase: Phase::AwaitingRequest,
        stage: Stage::SendingRequest,
        destination: Seq::empty(),
        x224_request: Seq::empty(),
        server_addr: Seq::empty(),
        x224_response: Seq::empty(),
        frame_len: 0,
        error: None,
    }
}

/// The session ends in failure; the client is told where it still can be.
pub open spec fn failed(s: BrokerView, err: GatewayError) -> (BrokerView, ActionView) {
    (
        BrokerView { phase: Phase::Closed, error: Some(err), ..s },
        if err.reports_to_client() { ActionView::SendControl(ControlView::GeneralError) } else { ActionView::Shutdown },
    )
}

pub open spec fn next_awaiting(s: BrokerView, m: ClientMessage) -> (BrokerView, ActionView) {
    match m {
        ClientMessage::Binary(b) => match request_of_der(b@) {
            Some((d, x)) => (
                BrokerView { phase: Phase::Dialing, destination: d, x224_request: x, ..s },
                ActionView::Dial(d),
            ),
            None => failed(s, GatewayError::MalformedRequest),
        },
        ClientMessage::Ping(p) => (s, ActionView::SendPong(p@)),
        ClientMessage::Close => failed(s, GatewayError::ClientAbandoned),
        ClientMessage::Error => failed(s, GatewayError::ClientAbandoned),
        _ => (s, ActionView::Receive),
    }
}

pub open spec fn next_x224(s: BrokerView, e: Event) -> (BrokerView, ActionView) {
    match e {
        Event::RequestWritten if s.stage == Stage::SendingRequest => (
            BrokerView { stage: Stage::ReadingHeader, ..s },
            ActionView::ReadUpstream(4),
        ),
        Event::UpstreamBytes(h) if s.stage == Stage::ReadingHeader =>
            if h@.len() == 4 && tpkt_header_ok(h@) {
                if tpkt_length_spec(h@) == 4 {
                    (
                        BrokerView { phase: Phase::Tls, x224_response: h@, frame_len: 4, ..s },
                        ActionView::StartTls(host_of(s.destination)),
                    )
                } else {
                    (
                        BrokerView { stage: Stage::ReadingBody, x224_response: h@, frame_len: tpkt_length_spec(h@), ..s },
                        ActionView::ReadUpstream((tpkt_length_spec(h@) - 4) as nat),
                    )
                }
            } else {
                failed(s, GatewayError::UpstreamProtocolError)
            },
        Event::UpstreamBytes(b) if s.stage == Stage::ReadingBody =>
            if b@.len() + 4 == s.frame_len {
                (
                    BrokerView { phase: Phase::Tls, x224_response: s.x224_response + b@, ..s },
                    ActionView::StartTls(host_of(s.destination)),
                )
            } else {
                failed(s, GatewayError::UpstreamProtocolError)
            },
        Event::UpstreamFailed => failed(s, GatewayError::UpstreamProtocolError),
        _ => (s, ActionView::Idle),
    }
}

/// The broker's transition: the next state and the action to perform.
pub open spec fn next(s: BrokerView, e: Event) -> (BrokerView, ActionView) {
    match s.phase {
        Phase::AwaitingRequest => match e {
            Event::Client(m) => next_awaiting(s, m),
            _ => (s, ActionView::Idle),
        },
        Phase::Dialing => match e {
            Event::Connected { peer_addr } => (
                BrokerView {
                    phase: Phase::X224,
                    stage: Stage::SendingRequest,
                    server_addr: match peer_addr {
                        Some(a) => a@,
                        None => s.destination,
                    },
                    ..s
                },
                ActionView::WriteUpstream(s.x224_request),
            ),
            Event::ConnectFailed => failed(s, GatewayError::UpstreamUnreachable),
            _ => (s, ActionView::Idle),
        },
        Phase::X224 => next_x224(s, e),
        Phase::Tls => match e {
            Event::TlsEstablished { certs } => (
                BrokerView { phase: Phase::Relaying, ..s },
                ActionView::SendControl(ControlView::Response {
                    server_addr: s.server_addr,
                    x224: s.x224_response,
                    certs: certs_view(certs@),
                }),
            ),
            Event::TlsFailed => failed(s, GatewayError::TlsFailure),
            _ => (s, ActionView::Idle),
        },
        Phase::Relaying => match e {
            Event::SendFailed => (
                BrokerView { phase: Phase::Closed, error: Some(GatewayError::RelayTransportError), ..s },
                ActionView::Shutdown,
            ),
            Event::RelayEnded => (BrokerView { phase: Phase::Closed, ..s }, ActionView::Shutdown),
            _ => (s, ActionView::Idle),
        },
        Phase::Closed => (s, ActionView::Idle),
    }
}

/// How the upstream TLS client treats the server's certificate.
#[derive(Debug, Clone, Copy, PartialEq, Eq, Structural)]
pub struct TlsPolicy {
    pub accept_invalid_certs: bool,
    pub accept_invalid_hostnames: bool,
}

impl TlsPolicy {
    /// Accept any chain and any name: the browser receives the chain and
    /// decides whether to trust the server. This is the default.
    pub fn accept_any() -> (r: TlsPolicy)
        ensures
            r.accept_invalid_certs && r.accept_invalid_hostnames,
    {
        TlsPolicy { accept_invalid_certs: true, accept_invalid_hostnames: true }
    }

    /// Validate the chain and the host name.
    pub fn verify_server() -> (r: TlsPolicy)
        ensures
            !r.accept_invalid_certs && !r.accept_invalid_hostnames,
    {
        TlsPolicy { accept_invalid_certs: false, accept_invalid_hostnames: false }
    }
}

/// A copy of a byte buffer.
fn copy_bytes(v: &Vec<u8>) -> (r: Vec<u8>)
    ensures
        r@ == v@,
{
    let r = v.clone();
    assert(r@ =~= v@);
    r
}

/// The TLS server name for a destination: the part before the first colon.
pub fn tls_hostname(destination: &str) -> (r: String)
    ensures
        r@ == host_of(destination@),
{
    let n = destination.unicode_len();
    let mut i: usize = 0;
    while i < n && destination.get_char(i) != ':'
        invariant
            n == destination@.len(),
            i <= n,
            first_colon_from(destination@, 0) == first_colon_from(destination@, i as int),
        decreases n - i,
    {
        i = i + 1;
    }
    destination.substring_char(0, i).to_owned()
}

/// The address reported to the client: the resolved peer address when the
/// socket knows it, else the destination as the client wrote it.
pub fn reported_server_addr(peer_addr: Option<String>, destination: &str) -> (r: String)
    ensures
        r@ == match peer_addr {
            Some(a) => a@,
            None => destination@,
        },
{
    match peer_addr {
        Some(a) => a,
        None => destination.to_owned(),
    }
}

impl Broker {
    /// A broker waiting for the client's request PDU.
    pub fn new() -> (r: Broker)
        ensures
            r@ == initial_view(),
    {
        Broker {
            phase: Phase::AwaitingRequest,
            stage: Stage::SendingRequest,
            destination: String::new(),
            x224_request: Vec::new(),
            server_addr: String::new(),
            x224_response: Vec::new(),
            frame_len: 0,
            error: None,
        }
    }

    pub fn phase(&self) -> (r: Phase)
        ensures
            r == self@.phase,
    {
        self.phase
    }

    pub fn is_closed(&self) -> (r: bool)
        ensures
            r == (self@.phase == Phase::Closed),
    {
        self.phase == Phase::Closed
    }

    /// Why the session failed, once it has.
    pub fn error(&self) -> (r: Option<GatewayError>)
        ensures
            r == self@.error,
    {
        self.error
    }

    /// The destination of the request, once one was accepted.
    pub fn destination(&self) -> (r: &str)
        ensures
            r@ == self@.destination,
    {
        self.destination.as_str()
    }

    fn fail(&mut self, err: GatewayError) -> (a: Action)
        ensures
            final(self)@ == failed(old(self)@, err).0,
            a@ == failed(old(self)@, err).1,
    {
        self.phase = Phase::Closed;
        self.error = Some(err);
        if err.reports_to_client() {
            Action::SendControl(ControlPdu::GeneralError)
        } else {
            Action::Shutdown
        }
    }

    fn step_awaiting(&mut self, m: ClientMessage) -> (a: Action)
        requires
            old(self)@.phase == Phase::AwaitingRequest,
        ensures
            final(self)@ == next_awaiting(old(self)@, m).0,
            a@ == next_awaiting(old(self)@, m).1,
    {
        match m {
            ClientMessage::Binary(b) => match decode_request(b.as_slice()) {
                Ok(q) => {
                    self.phase = Phase::Dialing;
                    let a = Action::Dial(q.destination.clone());
                    self.destination = q.destination;
                    self.x224_request = q.x224_connection_request;
                    a
                },
                Err(e) => self.fail(e),
            },
            ClientMessage::Ping(p) => Action::SendPong(p),
            ClientMessage::Close => self.fail(GatewayError::ClientAbandoned),
            ClientMessage::Error => self.fail(GatewayError::ClientAbandoned),
            _ => Action::Receive,
        }
    }

    fn step_x224(&mut self, e: Event) -> (a: Action)
        requires
            old(self)@.phase == Phase::X224,
        ensures
            final(self)@ == next_x224(old(self)@, e).0,
            a@ == next_x224(old(self)@, e).1,
    {
        match e {
            Event::RequestWritten if self.stage == Stage::SendingRequest => {
                self.stage = Stage::ReadingHeader;
                Action::ReadUpstream(TPKT_HEADER_LEN)
            },
            Event::UpstreamBytes(h) if self.stage == Stage::ReadingHeader => {
                if h.len() != 4 {
                    return self.fail(GatewayError::UpstreamProtocolError);
                }
                match parse_tpkt_header(h.as_slice()) {
                    Ok(n) => {
                        self.x224_response = h;
                        self.frame_len = n;
                        if n == TPKT_HEADER_LEN {
                            self.phase = Phase::Tls;
                            Action::StartTls(tls_hostname(self.destination.as_str()))
                        } else {
                            self.stage = Stage::ReadingBody;
                            Action::ReadUpstream(n - TPKT_HEADER_LEN)
                        }
                    },
                    Err(err) => self.fail(err),
                }
            },
            Event::UpstreamBytes(b) if self.stage == Stage::ReadingBody => {
                if self.frame_len >= TPKT_HEADER_LEN && b.len() == self.frame_len - TPKT_HEADER_LEN {
                    self.x224_response = assemble_tpkt(self.x224_response.as_slice(), b.as_slice());
                    self.phase = Phase::Tls;
                    Action::StartTls(tls_hostname(self.destination.as_str()))
                } else {
                    self.fail(GatewayError::UpstreamProtocolError)
                }
            },
            Event::UpstreamFailed => self.fail(GatewayError::UpstreamProtocolError),
            _ => Action::Idle,
        }
    }

    /// Feeds one event to the broker and returns what to do next.
    pub fn step(&mut self, e: Event) -> (a: Action)
        ensures
            final(self)@ == next(old(self)@, e).0,
            a@ == next(old(self)@, e).1,
    {
        match self.phase {
            Phase::AwaitingRequest => match e {
                Event::Client(m) => self.step_awaiting(m),
                _ => Action::Idle,
            },
            Phase::Dialing => match e {
                Event::Connected { peer_addr } => {
                    self.server_addr = reported_server_addr(peer_addr, self.destination.as_str());
                    self.phase = Phase::X224;
                    self.stage = Stage::SendingRequest;
                    Action::WriteUpstream(copy_bytes(&self.x224_request))
                },
                Event::ConnectFailed => self.fail(GatewayError::UpstreamUnreachable),
                _ => Action::Idle,
            },
            Phase::X224 => self.step_x224(e),
            Phase::Tls => match e {
                Event::TlsEstablished { certs } => {
                    self.phase = Phase::Relaying;
                    Action::SendControl(ControlPdu::Response {
                        server_addr: self.server_addr.clone(),
                        x224_connection_response: copy_bytes(&self.x224_response),
                        server_cert_chain: certs,
                    })
                },
                Event::TlsFailed => self.fail(GatewayError::TlsFailure),
                _ => Action::Idle,
            },
            Phase::Relaying => match e {
                Event::SendFailed => {
                    self.phase = Phase::Closed;
                    self.error = Some(GatewayError::RelayTransportError);
                    Action::Shutdown
                },
                Event::RelayEnded => {
                    self.phase = Phase::Closed;
                    Action::Shutdown
                },
                _ => Action::Idle,
            },
            Phase::Closed => Action::Idle,
        }
    }
}

} // verus!
