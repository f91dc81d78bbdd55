use vstd::prelude::*;

use crate::broker::ClientMessage;

verus! {

/// Size of the buffer each upstream read fills at most.
pub const RELAY_BUFFER_SIZE: usize = 16384;

/// What the browser-to-upstream direction does with one input.
pub enum UplinkAction {
    /// Write these bytes to the upstream TLS stream in full.
    Write(Vec<u8>),
    SendPong(Vec<u8>),
    /// Read the next WebSocket message.
    Continue,
    /// Shut down the upstream write half; this direction is over.
    Finish,
    /// This direction is already over.
    Idle,
}

pub enum UplinkView {
    Write(Seq<u8>),
    SendPong(Seq<u8>),
    Continue,
    Finish,
    Idle,
}

impl View for UplinkAction {
    type V = UplinkView;

    open spec fn view(&self) -> UplinkView {
        match self {
            UplinkAction::Write(b) => UplinkView::Write(b@),
            UplinkAction::SendPong(b) => UplinkView::SendPong(b@),
            UplinkAction::Continue => UplinkView::Continue,
            UplinkAction::Finish => UplinkView::Finish,
            UplinkAction::Idle => UplinkView::Idle,
        }
    }
}

/// An input of the browser-to-upstream direction.
pub enum UplinkEvent {
    Client(ClientMessage),
    /// Writing to upstream failed.
    WriteFailed,
}

/// The browser-to-upstream direction: `ended` after its termination.
pub open spec fn uplink_next(ended: bool, e: UplinkEvent) -> (bool, UplinkView) {
    if ended {
        (true, UplinkView::Idle)
    } else {
        match e {
            UplinkEvent::Client(ClientMessage::Binary(b)) => (false, UplinkView::Write(b@)),
            UplinkEvent::Client(ClientMessage::Ping(p)) => (false, UplinkView::SendPong(p@)),
            UplinkEvent::Client(ClientMessage::Close) => (true, UplinkView::Finish),
            UplinkEvent::Client(ClientMessage::Error) => (true, UplinkView::Finish),
            UplinkEvent::WriteFailed => (true, UplinkView::Finish),
            _ => (false, UplinkView::Continue),
        }
    }
}

/// The browser-to-upstream direction of a relay.
pub struct Uplink {
    ended: bool,
}

impl View for Uplink {
    type V = bool;

    closed spec fn view(&self) -> bool {
        self.ended
    }
}

impl Uplink {
    pub fn new() -> (r: Uplink)
        ensures
            r@ == false,
    {
        Uplink { ended: false }
    }

    pub fn is_ended(&self) -> (r: bool)
        ensures
            r == self@,
    {
        self.ended
    }

    /// Handles one input and says what to do.
    pub fn step(&mut self, e: UplinkEvent) -> (a: UplinkAction)
        ensures
            final(self)@ == uplink_next(old(self)@, e).0,
            a@ == uplink_next(old(self)@, e).1,
    {
        if self.ended {
            return UplinkAction::Idle;
        }
        match e {
            UplinkEvent::Client(ClientMessage::Binary(b)) => UplinkAction::Write(b),
            UplinkEvent::Client(ClientMessage::Ping(p)) => UplinkAction::SendPong(p),
            UplinkEvent::Client(ClientMessage::Close) => {
                self.ended = true;
                UplinkAction::Finish
            },
            UplinkEvent::Client(ClientMessage::Error) => {
                self.ended = true;
                UplinkAction::Finish
            },
            UplinkEvent::WriteFailed => {
                self.ended = true;
                UplinkAction::Finish
            },
            _ => UplinkAction::Continue,
        }
    }
}

/// The result of one read from the upstream TLS stream.
pub enum UpstreamRead {
    /// The bytes read; none means a clean end of stream.
    Data(Vec<u8>),
    Error,
}

/// An input of the upstream-to-browser direction.
pub enum DownlinkEvent {
    Read(UpstreamRead),
    /// Sending to the WebSocket failed.
    SendFailed,
}

/// What the upstream-to-browser direction does with one input.
pub enum DownlinkAction {
    /// Send these bytes as one binary WebSocket message.
    Send(Vec<u8>),
    /// Close the WebSocket; this direction is over.
    Finish,
    /// This direction is already over.
    Idle,
}

pub enum DownlinkView {
    Send(Seq<u8>),
    Finish,
    Idle,
}

impl View for DownlinkAction {
    type V = DownlinkView;

    open spec fn view(&self) -> DownlinkView {
        match self {
            DownlinkAction::Send(b) => DownlinkView::Send(b@),
            DownlinkAction::Finish => DownlinkView::Finish,
            DownlinkAction::Idle => DownlinkView::Idle,
        }
    }
}

/// The upstream-to-browser direction: `ended` after its termination.
pub open spec fn downlink_next(ended: bool, e: DownlinkEvent) -> (bool, DownlinkView) {
    if ended {
        (true, DownlinkView::Idle)
    } else {
        match e {
            DownlinkEvent::Read(UpstreamRead::Data(b)) => if b@.len() > 0 {
                (false, DownlinkView::Send(b@))
            } else {
                (true, DownlinkView::Finish)
            },
            _ => (true, DownlinkView::Finish),
        }
    }
}

/// The upstream-to-browser direction of a relay.
pub struct Downlink {
    ended: bool,
}

impl View for Downlink {
    type V = bool;

    closed spec fn view(&self) -> bool {
        self.ended
    }
}

impl Downlink {
    pub fn new() -> (r: Downlink)
        ensures
            r@ == false,
    {
        Downlink { ended: false }
    }

    pub fn is_ended(&self) -> (r: bool)
        ensures
            r == self@,
    {
        self.ended
    }

    /// Handles one input and says what to do.
    pub fn step(&mut self, e: DownlinkEvent) -> (a: DownlinkAction)
        ensures
            final(self)@ == downlink_next(old(self)@, e).0,
            a@ == downlink_next(old(self)@, e).1,
    {
        if self.ended {
            return DownlinkAction::Idle;
        }
        match e {
            DownlinkEvent::Read(UpstreamRead::Data(b)) => {
                if b.len() > 0 {
                    DownlinkAction::Send(b)
                } else {
                    self.ended = true;
                    DownlinkAction::Finish
                }
            },
            _ => {
                self.ended = true;
                DownlinkAction::Finish
            },
        }
    }
}

} // verus!
