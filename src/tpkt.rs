use vstd::prelude::*;

use crate::error::GatewayError;

verus! {

/// The only TPKT version RDP uses.
pub const TPKT_VERSION: u8 = 3;

/// Size of the TPKT header: version, reserved, 16-bit big-endian length.
pub const TPKT_HEADER_LEN: usize = 4;

/// The total frame length a TPKT header announces (header included).
pub open spec fn tpkt_length_spec(h: Seq<u8>) -> nat {
    (h[2] as nat) * 256 + (h[3] as nat)
}

/// A header the exchange accepts: version 3 and a length that covers the header.
pub open spec fn tpkt_header_ok(h: Seq<u8>) -> bool {
    &&& h.len() == 4
    &&& h[0] == TPKT_VERSION
    &&& tpkt_length_spec(h) >= 4
}

/// Reads a TPKT header and returns the total frame length it announces.
/// A header with another version, or a length shorter than the header
/// itself, is an upstream protocol error.
pub fn parse_tpkt_header(header: &[u8]) -> (r: Result<usize, GatewayError>)
    requires
        header@.len() == 4,
    ensures
        r is Ok <==> tpkt_header_ok(header@),
        r matches Ok(n) ==> n as nat == tpkt_length_spec(header@) && n <= 65535,
        r matches Err(e) ==> e == GatewayError::UpstreamProtocolError,
{
    if header[0] != TPKT_VERSION {
        return Err(GatewayError::UpstreamProtocolError);
    }
    let n: usize = (header[2] as usize) * 256 + (header[3] as usize);
    if n < TPKT_HEADER_LEN {
        return Err(GatewayError::UpstreamProtocolError);
    }
    Ok(n)
}

/// Joins a header and the body read after it into one frame, byte for byte.
pub fn assemble_tpkt(header: &[u8], body: &[u8]) -> (r: Vec<u8>)
    ensures
        r@ == header@ + body@,
{
    let mut out: Vec<u8> = Vec::new();
    let mut i: usize = 0;
    while i < header.len()
        invariant
            i <= header@.len(),
            out@ == header@.subrange(0, i as int),
        decreases header@.len() - i,
    {
        out.push(header[i]);
        i = i + 1;
    }
    let mut j: usize = 0;
    while j < body.len()
        invariant
            j <= body@.len(),
            out@ == header@ + body@.subrange(0, j as int),
        decreases body@.len() - j,
    {
        out.push(body[j]);
        j = j + 1;
    }
    assert(header@.subrange(0, header@.len() as int) =~= header@);
    assert(body@.subrange(0, body@.len() as int) =~= body@);
    out
}

} // verus!
