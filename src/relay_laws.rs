use vstd::prelude::*;

use crate::broker::ClientMessage;
use crate::relay::{
    downlink_next, uplink_next, DownlinkEvent, DownlinkView, UplinkEvent, UplinkView, UpstreamRead,
};

verus! {

/// Whether the browser-to-upstream direction has ended, and its actions, after `evs`.
pub open spec fn uplink_run(evs: Seq<UplinkEvent>) -> (bool, Seq<UplinkView>)
    decreases evs.len(),
{
    if evs.len() == 0 {
        (false, Seq::empty())
    } else {
        let prev = uplink_run(evs.drop_last());
        let step = uplink_next(prev.0, evs.last());
        (step.0, prev.1.push(step.1))
    }
}

/// The bytes these actions write to upstream, in order.
pub open spec fn upstream_writes(acts: Seq<UplinkView>) -> Seq<u8>
    decreases acts.len(),
{
    if acts.len() == 0 {
        Seq::empty()
    } else {
        upstream_writes(acts.drop_last()) + match acts.last() {
            UplinkView::Write(b) => b,
            _ => Seq::empty(),
        }
    }
}

/// The payloads of the binary messages received while the direction ran,
/// joined in receive order.
pub open spec fn inbound_payload(evs: Seq<UplinkEvent>) -> Seq<u8>
    decreases evs.len(),
{
    if evs.len() == 0 {
        Seq::empty()
    } else {
        let ended = uplink_run(evs.drop_last()).0;
        inbound_payload(evs.drop_last()) + match evs.last() {
            UplinkEvent::Client(ClientMessage::Binary(b)) => if ended {
                Seq::empty()
            } else {
                b@
            },
            _ => Seq::empty(),
        }
    }
}

/// How many times these actions finish the browser-to-upstream direction.
pub open spec fn uplink_finishes(acts: Seq<UplinkView>) -> nat
    decreases acts.len(),
{
    if acts.len() == 0 {
        0
    } else {
        uplink_finishes(acts.drop_last()) + if acts.last() is Finish { 1nat } else { 0nat }
    }
}

/// Whether the upstream-to-browser direction has ended, and its actions, after `evs`.
pub open spec fn downlink_run(evs: Seq<DownlinkEvent>) -> (bool, Seq<DownlinkView>)
    decreases evs.len(),
{
    if evs.len() == 0 {
        (false, Seq::empty())
    } else {
        let prev = downlink_run(evs.drop_last());
        let step = downlink_next(prev.0, evs.last());
        (step.0, prev.1.push(step.1))
    }
}

/// The binary messages these actions send to the browser, in order.
pub open spec fn sent_messages(acts: Seq<DownlinkView>) -> Seq<Seq<u8>>
    decreases acts.len(),
{
    if acts.len() == 0 {
        Seq::empty()
    } else {
        let prev = sent_messages(acts.drop_last());
        match acts.last() {
            DownlinkView::Send(b) => prev.push(b),
            _ => prev,
        }
    }
}

/// The non-empty reads from upstream while the direction ran, in order.
pub open spec fn upstream_reads(evs: Seq<DownlinkEvent>) -> Seq<Seq<u8>>
    decreases evs.len(),
{
    if evs.len() == 0 {
        Seq::empty()
    } else {
        let ended = downlink_run(evs.drop_last()).0;
        let prev = upstream_reads(evs.drop_last());
        match evs.last() {
            DownlinkEvent::Read(UpstreamRead::Data(b)) => if !ended && b@.len() > 0 {
                prev.push(b@)
            } else {
                prev
            },
            _ => prev,
        }
    }
}

/// How many times these actions finish the upstream-to-browser direction.
pub open spec fn downlink_finishes(acts: Seq<DownlinkView>) -> nat
    decreases acts.len(),
{
    if acts.len() == 0 {
        0
    } else {
        downlink_finishes(acts.drop_last()) + if acts.last() is Finish { 1nat } else { 0nat }
    }
}

/// Browser to upstream: the bytes written to upstream are exactly the
/// payloads of the binary messages received, joined in receive order; and
/// the direction shuts the upstream write half once, exactly when it ends.
pub proof fn law_uplink_preserves_bytes(evs: Seq<UplinkEvent>)
    ensures
        upstream_writes(uplink_run(evs).1) == inbound_payload(evs),
        uplink_finishes(uplink_run(evs).1) == if uplink_run(evs).0 { 1nat } else { 0nat },
    decreases evs.len(),
{
    if evs.len() > 0 {
        law_uplink_preserves_bytes(evs.drop_last());
        let prev = uplink_run(evs.drop_last());
        let step = uplink_next(prev.0, evs.last());
        assert(prev.1.push(step.1).drop_last() =~= prev.1);
        let w = upstream_writes(prev.1);
        assert(w + Seq::<u8>::empty() =~= w);
    }
}

/// Upstream to browser: each non-empty upstream read becomes one binary
/// message with the same bytes, in order, so the joined messages are the
/// joined reads; and the direction closes the WebSocket once, exactly when
/// it ends.
pub proof fn law_downlink_preserves_reads(evs: Seq<DownlinkEvent>)
    ensures
        sent_messages(downlink_run(evs).1) == upstream_reads(evs),
        sent_messages(downlink_run(evs).1).flatten() == upstream_reads(evs).flatten(),
        downlink_finishes(downlink_run(evs).1) == if downlink_run(evs).0 { 1nat } else { 0nat },
    decreases evs.len(),
{
    if evs.len() > 0 {
        law_downlink_preserves_reads(evs.drop_last());
        let prev = downlink_run(evs.drop_last());
        let step = downlink_next(prev.0, evs.last());
        assert(prev.1.push(step.1).drop_last() =~= prev.1);
    }
}

} // verus!
