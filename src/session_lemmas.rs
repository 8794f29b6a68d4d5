use crate::codec::Decoded;
use crate::error::MarketStoreError;
use crate::models::StreamPayload;
use crate::session::{
    answers, is_normal_close, next_phase, Action, Event, Inbound, Outbound, Phase,
};
use vstd::prelude::*;

verus! {

/// `acts` are the session's answers to `evs`, one per event, from phase `p`
/// until the session terminates.
pub open spec fn is_run(p: Phase, evs: Seq<Event>, acts: Seq<Action>) -> bool
    decreases evs.len(),
{
    if evs.len() == 0 || p == Phase::Terminated {
        acts.len() == 0
    } else {
        &&& acts.len() > 0
        &&& answers(p, evs[0], acts[0])
        &&& is_run(next_phase(p, evs[0]), evs.drop_first(), acts.drop_first())
    }
}

/// The payloads handed to the handler, in order.
pub open spec fn delivered(acts: Seq<Action>) -> Seq<StreamPayload>
    decreases acts.len(),
{
    if acts.len() == 0 {
        seq![]
    } else {
        let rest = delivered(acts.drop_first());
        match acts[0] {
            Action::Deliver(d) => seq![d] + rest,
            _ => rest,
        }
    }
}

/// The data payloads among the frames in `evs` that come before the first
/// close frame or cancellation, in order.
pub open spec fn payloads_before_close(evs: Seq<Event>) -> Seq<StreamPayload>
    decreases evs.len(),
{
    if evs.len() == 0 || evs[0] is Cancelled || evs[0] matches Event::Received(Inbound::Close(_)) {
        seq![]
    } else {
        let rest = payloads_before_close(evs.drop_first());
        match evs[0] {
            Event::Received(Inbound::Binary(Decoded::DataPayload(d))) => seq![d] + rest,
            _ => rest,
        }
    }
}

/// `e` is an outcome a runner can report for the action the session asks
/// for in phase `p`: a send's success or failure, the handler's return, or
/// what a read yields (a frame, the end of the stream, a read error, the
/// cancellation while listening, the timeout while awaiting the close echo).
/// A terminated session asks for nothing.
pub open spec fn reports(p: Phase, e: Event) -> bool {
    match p {
        Phase::Subscribing | Phase::Answering | Phase::Echoing | Phase::Closing => e is Sent
            || e is SendFailed,
        Phase::Listening => e is Received || e is StreamEnded || e is ReceiveFailed
            || e is Cancelled,
        Phase::Dispatching => e is HandlerReturned,
        Phase::AwaitingEcho => e is Received || e is StreamEnded || e is ReceiveFailed
            || e is TimedOut,
        Phase::Terminated => false,
    }
}

/// Every event of `evs` is an outcome of what the session asked for, from
/// phase `p` on; in particular no event follows the session's end.
pub open spec fn reported_run(p: Phase, evs: Seq<Event>) -> bool
    decreases evs.len(),
{
    evs.len() == 0 || (reports(p, evs[0]) && reported_run(next_phase(p, evs[0]), evs.drop_first()))
}

/// Whatever happens, a session never sends a binary frame of its own: the
/// subscribe frame of `Session::open` is the only one it ever sends.
pub proof fn lemma_single_subscribe_frame(p: Phase, evs: Seq<Event>, acts: Seq<Action>)
    requires
        is_run(p, evs, acts),
    ensures
        forall|i: int| 0 <= i < acts.len() ==> !(#[trigger] acts[i] matches Action::Send(Outbound::Binary(_))),
    decreases evs.len(),
{
    if evs.len() > 0 && p != Phase::Terminated {
        lemma_single_subscribe_frame(next_phase(p, evs[0]), evs.drop_first(), acts.drop_first());
        assert forall|i: int| 0 <= i < acts.len() implies !(#[trigger] acts[i] matches Action::Send(
            Outbound::Binary(_),
        )) by {
            if i > 0 {
                assert(acts[i] == acts.drop_first()[i - 1]);
            }
        }
    }
}

/// The handler is never run twice at once: after each delivery the session
/// asks for nothing but the next read.
pub proof fn lemma_handler_never_overlaps(p: Phase, evs: Seq<Event>, acts: Seq<Action>)
    requires
        is_run(p, evs, acts),
    ensures
        forall|i: int|
            0 <= i < acts.len() - 1 && #[trigger] acts[i] is Deliver ==> acts[i + 1] is Receive,
    decreases evs.len(),
{
    if evs.len() > 0 && p != Phase::Terminated {
        let q = next_phase(p, evs[0]);
        lemma_handler_never_overlaps(q, evs.drop_first(), acts.drop_first());
        assert forall|i: int|
            0 <= i < acts.len() - 1 && #[trigger] acts[i] is Deliver implies acts[i + 1] is Receive by {
            assert(acts[i + 1] == acts.drop_first()[i]);
            if i > 0 {
                assert(acts[i] == acts.drop_first()[i - 1]);
            } else {
                reveal_with_fuel(is_run, 2);
                assert(q == Phase::Dispatching);
            }
        }
    }
}

/// When the runner reports only outcomes of what the session asks for, the
/// session answers every event.
pub proof fn lemma_reported_run_is_answered(p: Phase, evs: Seq<Event>, acts: Seq<Action>)
    requires
        reported_run(p, evs),
        is_run(p, evs, acts),
    ensures
        acts.len() == evs.len(),
    decreases evs.len(),
{
    if evs.len() > 0 {
        lemma_reported_run_is_answered(next_phase(p, evs[0]), evs.drop_first(), acts.drop_first());
    }
}

/// Once the session is shutting down, the handler is never called again.
pub proof fn lemma_no_delivery_while_closing(p: Phase, evs: Seq<Event>, acts: Seq<Action>)
    requires
        p == Phase::Echoing || p == Phase::Closing || p == Phase::AwaitingEcho || p
            == Phase::Terminated,
        is_run(p, evs, acts),
    ensures
        delivered(acts) == Seq::<StreamPayload>::empty(),
    decreases evs.len(),
{
    if evs.len() > 0 && p != Phase::Terminated {
        lemma_no_delivery_while_closing(next_phase(p, evs[0]), evs.drop_first(), acts.drop_first());
    }
}

/// Over a whole session, whatever the handler returns and however the
/// session ends (peer close, cancellation, failed send, read error, end of
/// the stream), the handler is called exactly once for each data payload
/// among the frames that arrive before the first close frame or
/// cancellation, in arrival order, and for nothing else.
pub proof fn lemma_each_payload_delivered_once(p: Phase, evs: Seq<Event>, acts: Seq<Action>)
    requires
        p == Phase::Subscribing || p == Phase::Listening || p == Phase::Dispatching || p
            == Phase::Answering,
        reported_run(p, evs),
        is_run(p, evs, acts),
    ensures
        acts.len() == evs.len(),
        delivered(acts) == payloads_before_close(evs),
    decreases evs.len(),
{
    lemma_reported_run_is_answered(p, evs, acts);
    if evs.len() > 0 {
        let q = next_phase(p, evs[0]);
        let evs1 = evs.drop_first();
        let acts1 = acts.drop_first();
        assert(delivered(acts) == match acts[0] {
            Action::Deliver(d) => seq![d] + delivered(acts1),
            _ => delivered(acts1),
        });
        if q == Phase::Subscribing || q == Phase::Listening || q == Phase::Dispatching || q
            == Phase::Answering {
            lemma_each_payload_delivered_once(q, evs1, acts1);
        } else {
            lemma_no_delivery_while_closing(q, evs1, acts1);
            assert(payloads_before_close(evs) =~= Seq::<StreamPayload>::empty()) by {
                reveal_with_fuel(payloads_before_close, 2);
                reveal_with_fuel(reported_run, 2);
            }
        }
    }
}

/// Once the session waits for the peer's close frame, it can only end
/// cleanly, and it ends at the latest when the wait times out.
pub proof fn lemma_close_wait_ends_ok(evs: Seq<Event>, acts: Seq<Action>)
    requires
        is_run(Phase::AwaitingEcho, evs, acts),
    ensures
        forall|i: int| 0 <= i < acts.len() && #[trigger] acts[i] is Finish ==> acts[i] == Action::Finish(Ok(())),
        forall|k: int|
            0 <= k < evs.len() && #[trigger] evs[k] is TimedOut ==> acts.len() <= k + 1 && acts.len() > 0
                && acts.last() == Action::Finish(Ok(())),
    decreases evs.len(),
{
    reveal_with_fuel(is_run, 2);
    if evs.len() > 0 {
        let q = next_phase(Phase::AwaitingEcho, evs[0]);
        if q == Phase::AwaitingEcho {
            lemma_close_wait_ends_ok(evs.drop_first(), acts.drop_first());
            assert forall|i: int| 0 <= i < acts.len() && #[trigger] acts[i] is Finish implies acts[i]
                == Action::Finish(Ok(())) by {
                if i > 0 {
                    assert(acts[i] == acts.drop_first()[i - 1]);
                }
            }
            assert forall|k: int| 0 <= k < evs.len() && #[trigger] evs[k] is TimedOut implies acts.len()
                <= k + 1 && acts.len() > 0 && acts.last() == Action::Finish(Ok(())) by {
                assert(k > 0);
                assert(evs.drop_first()[k - 1] == evs[k]);
            }
        } else {
            assert(acts.drop_first().len() == 0);
        }
    }
}

/// A cancellation while the session is listening, even before any frame has
/// arrived, leads to a clean end: once our close frame is sent, every result
/// the session can finish with is `Ok`.
pub proof fn lemma_cancel_is_clean(evs: Seq<Event>, acts: Seq<Action>)
    requires
        evs.len() > 0,
        evs[0] is Cancelled,
        evs.len() > 1 ==> !(evs[1] is SendFailed),
        is_run(Phase::Listening, evs, acts),
    ensures
        is_normal_close(acts[0]),
        forall|i: int| 0 <= i < acts.len() && #[trigger] acts[i] is Finish ==> acts[i] == Action::Finish(Ok(())),
{
    reveal_with_fuel(is_run, 3);
    if evs.len() > 1 {
        let evs1 = evs.drop_first();
        let acts1 = acts.drop_first();
        assert(acts1[0] == Action::AwaitCloseEcho);
        lemma_close_wait_ends_ok(evs1.drop_first(), acts1.drop_first());
        assert forall|i: int| 0 <= i < acts.len() && #[trigger] acts[i] is Finish implies acts[i]
            == Action::Finish(Ok(())) by {
            if i > 1 {
                assert(acts[i] == acts1.drop_first()[i - 2]);
            }
        }
    }
}

/// A frame that decodes as no known shape is passed over: the session keeps
/// listening.
pub proof fn lemma_undecodable_keeps_listening(a: Action)
    requires
        answers(Phase::Listening, Event::Received(Inbound::Binary(Decoded::Undecodable)), a),
    ensures
        a == Action::Receive,
        next_phase(Phase::Listening, Event::Received(Inbound::Binary(Decoded::Undecodable)))
            == Phase::Listening,
{
}

/// A ping is answered with a pong carrying the same data, and the session
/// reads the next frame only once the pong has gone out.
pub proof fn lemma_ping_answered(data: Vec<u8>, a: Action, e: Event, b: Action)
    requires
        answers(Phase::Listening, Event::Received(Inbound::Ping(data)), a),
        answers(next_phase(Phase::Listening, Event::Received(Inbound::Ping(data))), e, b),
    ensures
        a == Action::Send(Outbound::Pong(data)),
        b is Receive || b == Action::Finish(Err(MarketStoreError::WebSocket(e->SendFailed_0))),
{
}

} // verus!
