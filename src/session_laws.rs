use vstd::prelude::*;

use crate::broker::{initial_view, next, ActionView, BrokerView, Event, Phase, Stage};
use crate::pdu::ControlView;
use crate::tpkt::{tpkt_header_ok, tpkt_length_spec};

verus! {

/// The state reached, and the actions emitted one per event, when a broker
/// in state `s` is fed `evs` in order.
pub open spec fn run(s: BrokerView, evs: Seq<Event>) -> (BrokerView, Seq<ActionView>)
    decreases evs.len(),
{
    if evs.len() == 0 {
        (s, Seq::empty())
    } else {
        let prev = run(s, evs.drop_last());
        let step = next(prev.0, evs.last());
        (step.0, prev.1.push(step.1))
    }
}

/// How many control PDUs a sequence of actions sends.
pub open spec fn control_count(acts: Seq<ActionView>) -> nat
    decreases acts.len(),
{
    if acts.len() == 0 {
        0
    } else {
        control_count(acts.drop_last()) + if acts.last() is SendControl { 1nat } else { 0nat }
    }
}

/// The phases before the relay starts.
pub open spec fn before_relay(p: Phase) -> bool {
    p == Phase::AwaitingRequest || p == Phase::Dialing || p == Phase::X224 || p == Phase::Tls
}

/// The bytes the broker took from upstream reads while exchanging X.224.
pub open spec fn consumed_upstream(s: BrokerView, evs: Seq<Event>) -> Seq<u8>
    decreases evs.len(),
{
    if evs.len() == 0 {
        Seq::empty()
    } else {
        let prev = run(s, evs.drop_last()).0;
        consumed_upstream(s, evs.drop_last()) + match evs.last() {
            Event::UpstreamBytes(b) => if prev.phase == Phase::X224 && prev.stage != Stage::SendingRequest {
                b@
            } else {
                Seq::empty()
            },
            _ => Seq::empty(),
        }
    }
}

/// One complete TPKT frame: a valid header whose length is the frame's length.
pub open spec fn complete_tpkt(f: Seq<u8>) -> bool {
    &&& f.len() >= 4
    &&& tpkt_header_ok(f.take(4))
    &&& f.len() == tpkt_length_spec(f.take(4))
}

proof fn lemma_control_count_invariant(evs: Seq<Event>)
    ensures
        control_count(run(initial_view(), evs).1) <= 1,
        before_relay(run(initial_view(), evs).0.phase) ==> control_count(run(initial_view(), evs).1) == 0,
    decreases evs.len(),
{
    if evs.len() > 0 {
        lemma_control_count_invariant(evs.drop_last());
        let prev = run(initial_view(), evs.drop_last());
        let step = next(prev.0, evs.last());
        assert(prev.1.push(step.1).drop_last() =~= prev.1);
    }
}

/// Whatever the client, the upstream and the transports report, a session
/// sends at most one RDCleanPath control PDU.
pub proof fn law_at_most_one_control_pdu(evs: Seq<Event>)
    ensures
        control_count(run(initial_view(), evs).1) <= 1,
{
    lemma_control_count_invariant(evs);
}

proof fn lemma_frame_invariant(evs: Seq<Event>)
    ensures
        ({
            let s = run(initial_view(), evs).0;
            let c = consumed_upstream(initial_view(), evs);
            &&& (s.phase == Phase::AwaitingRequest || s.phase == Phase::Dialing) ==> c.len() == 0
            &&& (s.phase == Phase::X224 && s.stage != Stage::ReadingBody) ==> c.len() == 0
            &&& (s.phase == Phase::X224 && s.stage == Stage::ReadingBody) ==> {
                &&& c == s.x224_response
                &&& c.len() == 4
                &&& tpkt_header_ok(c)
                &&& s.frame_len == tpkt_length_spec(c)
            }
            &&& (s.phase == Phase::Tls || s.phase == Phase::Relaying) ==> c == s.x224_response && complete_tpkt(c)
        }),
    decreases evs.len(),
{
    if evs.len() > 0 {
        lemma_frame_invariant(evs.drop_last());
        let prev = run(initial_view(), evs.drop_last()).0;
        let c0 = consumed_upstream(initial_view(), evs.drop_last());
        match evs.last() {
            Event::UpstreamBytes(b) => {
                if prev.phase == Phase::X224 && prev.stage == Stage::ReadingHeader {
                    assert(c0 + b@ =~= b@);
                    if b@.len() == 4 {
                        assert(b@.take(4) =~= b@);
                    }
                } else if prev.phase == Phase::X224 && prev.stage == Stage::ReadingBody {
                    assert((c0 + b@).take(4) =~= c0);
                } else {
                    assert(c0 + Seq::<u8>::empty() =~= c0);
                }
            },
            _ => {
                assert(c0 + Seq::<u8>::empty() =~= c0);
            },
        }
    }
}

/// When a broker fed any sequence of events sends the response PDU, its
/// X.224 field is exactly the bytes it consumed from upstream, and those
/// bytes are one complete TPKT frame.
pub proof fn law_response_carries_upstream_frame(evs: Seq<Event>)
    requires
        evs.len() > 0,
        run(initial_view(), evs).1.last() matches ActionView::SendControl(ControlView::Response { .. }),
    ensures
        run(initial_view(), evs).1.last() matches ActionView::SendControl(ControlView::Response { x224, .. })
            && x224 == consumed_upstream(initial_view(), evs) && complete_tpkt(x224),
{
    lemma_frame_invariant(evs.drop_last());
    let prev = run(initial_view(), evs.drop_last()).0;
    let c0 = consumed_upstream(initial_view(), evs.drop_last());
    assert(c0 + Seq::<u8>::empty() =~= c0);
}

/// Every control PDU among these actions is a GeneralError.
pub open spec fn only_general_errors(acts: Seq<ActionView>) -> bool {
    forall|i: int| 0 <= i < acts.len() && (#[trigger] acts[i]) is SendControl
        ==> acts[i] == ActionView::SendControl(ControlView::GeneralError)
}

proof fn lemma_failure_invariant(evs: Seq<Event>)
    ensures
        ({
            let (s, acts) = run(initial_view(), evs);
            &&& (before_relay(s.phase) || s.phase == Phase::Relaying) ==> s.error is None
            &&& before_relay(s.phase) ==> control_count(acts) == 0 && only_general_errors(acts)
            &&& (s.phase == Phase::Closed && (s.error matches Some(e) && e.reports_to_client()))
                ==> control_count(acts) == 1 && only_general_errors(acts)
        }),
    decreases evs.len(),
{
    if evs.len() > 0 {
        lemma_failure_invariant(evs.drop_last());
        lemma_control_count_invariant(evs.drop_last());
        let prev = run(initial_view(), evs.drop_last());
        let step = next(prev.0, evs.last());
        let acts = prev.1.push(step.1);
        assert(acts.drop_last() =~= prev.1);
        if only_general_errors(prev.1) && (step.1 is SendControl ==> step.1 == ActionView::SendControl(ControlView::GeneralError)) {
            assert forall|i: int| 0 <= i < acts.len() && (#[trigger] acts[i]) is SendControl
                implies acts[i] == ActionView::SendControl(ControlView::GeneralError) by {
                if i < prev.1.len() {
                    assert(acts[i] == prev.1[i]);
                }
            }
        }
    }
}

/// A session that fails before the relay, while the client can still be
/// written to, has sent exactly one control PDU, and it is a GeneralError.
pub proof fn law_prerelay_failure_sends_general_error(evs: Seq<Event>)
    requires
        run(initial_view(), evs).0.phase == Phase::Closed,
        run(initial_view(), evs).0.error matches Some(e) && e.reports_to_client(),
    ensures
        control_count(run(initial_view(), evs).1) == 1,
        only_general_errors(run(initial_view(), evs).1),
{
    lemma_failure_invariant(evs);
}

/// A failure before the relay, while the client can still be written to,
/// is reported with a GeneralError PDU.
pub proof fn law_prerelay_failure_reports_general_error(s: BrokerView, e: Event)
    requires
        before_relay(s.phase),
        next(s, e).0.phase == Phase::Closed,
        next(s, e).0.error matches Some(err) && err.reports_to_client(),
    ensures
        next(s, e).1 == ActionView::SendControl(ControlView::GeneralError),
{
}

/// When the relay ends, for whichever reason, the broker closes both the
/// WebSocket and the upstream stream, and a closed session stays closed.
pub proof fn law_relay_end_closes_both(s: BrokerView, e: Event)
    requires
        s.phase == Phase::Relaying || s.phase == Phase::Closed,
        next(s, e).0.phase != Phase::Relaying,
    ensures
        next(s, e).0.phase == Phase::Closed,
        s.phase == Phase::Relaying ==> next(s, e).1 == ActionView::Shutdown,
{
}

} // verus!
