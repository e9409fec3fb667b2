//! Decisions of the streaming handler: one session per stream, fed the events
//! that the transport observes, answering each with the action to perform.

use vstd::prelude::*;
use crate::evaluator::Evaluator;
use crate::model::{BidContext, BidContextView, MutationSet, MutationSetView};

verus! {

/// What the transport observed on the inbound side of a stream.
#[derive(Debug)]
pub enum StreamEvent {
    /// A request arrived and was decoded.
    Received(BidContext),
    /// An inbound message could not be decoded.
    DecodeFailed,
    /// The caller finished sending.
    InputEnded,
    /// The caller cancelled or disconnected.
    Cancelled,
}

/// What the transport must do in answer to an event.
#[derive(Debug)]
pub enum StreamAction {
    /// Send this response on the outbound side.
    Emit(MutationSet),
    /// Terminate the stream with a decode-failure status.
    Abort,
    /// Close the outbound side gracefully.
    Close,
    /// Send nothing.
    Nothing,
}

/// Where a session stands.
#[derive(Clone, Copy, Debug, PartialEq, Eq, Structural)]
pub enum StreamPhase {
    Open,
    Closed,
    Failed,
    Cancelled,
}

pub enum StreamEventView {
    Received(BidContextView),
    DecodeFailed,
    InputEnded,
    Cancelled,
}

pub enum StreamActionView {
    Emit(MutationSetView),
    Abort,
    Close,
    Nothing,
}

impl View for StreamEvent {
    type V = StreamEventView;

    open spec fn view(&self) -> StreamEventView {
        match self {
            StreamEvent::Received(r) => StreamEventView::Received(r@),
            StreamEvent::DecodeFailed => StreamEventView::DecodeFailed,
            StreamEvent::InputEnded => StreamEventView::InputEnded,
            StreamEvent::Cancelled => StreamEventView::Cancelled,
        }
    }
}

impl View for StreamAction {
    type V = StreamActionView;

    open spec fn view(&self) -> StreamActionView {
        match self {
            StreamAction::Emit(m) => StreamActionView::Emit(m@),
            StreamAction::Abort => StreamActionView::Abort,
            StreamAction::Close => StreamActionView::Close,
            StreamAction::Nothing => StreamActionView::Nothing,
        }
    }
}

/// The phase after an event. Only an open session moves.
pub open spec fn next_phase(p: StreamPhase, e: StreamEventView) -> StreamPhase {
    if p != StreamPhase::Open {
        p
    } else {
        match e {
            StreamEventView::Received(_) => StreamPhase::Open,
            StreamEventView::DecodeFailed => StreamPhase::Failed,
            StreamEventView::InputEnded => StreamPhase::Closed,
            StreamEventView::Cancelled => StreamPhase::Cancelled,
        }
    }
}

/// The action for an event. A session that is no longer open does nothing.
pub open spec fn reaction<E: Evaluator>(
    ev: E,
    p: StreamPhase,
    e: StreamEventView,
) -> StreamActionView {
    if p != StreamPhase::Open {
        StreamActionView::Nothing
    } else {
        match e {
            StreamEventView::Received(r) => StreamActionView::Emit(ev.response(r)),
            StreamEventView::DecodeFailed => StreamActionView::Abort,
            StreamEventView::InputEnded => StreamActionView::Close,
            StreamEventView::Cancelled => StreamActionView::Nothing,
        }
    }
}

/// The actions for a sequence of events, starting in phase `p`.
pub open spec fn run<E: Evaluator>(ev: E, p: StreamPhase, es: Seq<StreamEventView>) -> Seq<
    StreamActionView,
>
    decreases es.len(),
{
    if es.len() == 0 {
        seq![]
    } else {
        seq![reaction(ev, p, es[0])] + run(ev, next_phase(p, es[0]), es.drop_first())
    }
}

/// The events of a stream on which these requests arrive, in order.
pub open spec fn arrivals(reqs: Seq<BidContextView>) -> Seq<StreamEventView> {
    reqs.map_values(|r: BidContextView| StreamEventView::Received(r))
}

/// The emission of each request's evaluation, in order.
pub open spec fn emissions<E: Evaluator>(
    ev: E,
    reqs: Seq<BidContextView>,
) -> Seq<StreamActionView> {
    reqs.map_values(|r: BidContextView| StreamActionView::Emit(ev.response(r)))
}

/// `n` actions that send nothing.
pub open spec fn silence(n: nat) -> Seq<StreamActionView> {
    Seq::new(n, |i: int| StreamActionView::Nothing)
}

/// A session that is closed, failed or cancelled sends nothing more, whatever
/// arrives after.
pub proof fn lemma_ended_session_is_silent<E: Evaluator>(
    ev: E,
    p: StreamPhase,
    es: Seq<StreamEventView>,
)
    requires
        p != StreamPhase::Open,
    ensures
        run(ev, p, es) == silence(es.len()),
    decreases es.len(),
{
    if es.len() > 0 {
        lemma_ended_session_is_silent(ev, p, es.drop_first());
        assert(run(ev, p, es) =~= silence(es.len()));
    } else {
        assert(run(ev, p, es) =~= silence(es.len()));
    }
}

/// Requests that arrive on an open session are answered one by one, in arrival
/// order, and the session is still open after them.
pub proof fn lemma_arrivals_answered_in_order<E: Evaluator>(
    ev: E,
    reqs: Seq<BidContextView>,
    tail: Seq<StreamEventView>,
)
    ensures
        run(ev, StreamPhase::Open, arrivals(reqs) + tail) == emissions(ev, reqs) + run(
            ev,
            StreamPhase::Open,
            tail,
        ),
    decreases reqs.len(),
{
    if reqs.len() == 0 {
        assert(arrivals(reqs) + tail =~= tail);
        let after = run(ev, StreamPhase::Open, tail);
        assert(emissions(ev, reqs) + after =~= after);
    } else {
        let es = arrivals(reqs) + tail;
        lemma_arrivals_answered_in_order(ev, reqs.drop_first(), tail);
        assert(es[0] == StreamEventView::Received(reqs[0]));
        assert(es.drop_first() =~= arrivals(reqs.drop_first()) + tail);
        let first = StreamActionView::Emit(ev.response(reqs[0]));
        assert(emissions(ev, reqs) =~= seq![first] + emissions(ev, reqs.drop_first()));
        let after = run(ev, StreamPhase::Open, tail);
        assert(run(ev, StreamPhase::Open, es) =~= emissions(ev, reqs) + after);
    }
}

/// A stream whose input ends normally answers every request with its
/// evaluation, in arrival order, then closes.
pub proof fn lemma_stream_preserves_order<E: Evaluator>(ev: E, reqs: Seq<BidContextView>)
    ensures
        run(ev, StreamPhase::Open, arrivals(reqs).push(StreamEventView::InputEnded)) == emissions(
            ev,
            reqs,
        ).push(StreamActionView::Close),
{
    let tail = seq![StreamEventView::InputEnded];
    lemma_arrivals_answered_in_order(ev, reqs, tail);
    assert(arrivals(reqs).push(StreamEventView::InputEnded) =~= arrivals(reqs) + tail);
    assert(tail.drop_first() =~= Seq::<StreamEventView>::empty());
    assert(run(ev, StreamPhase::Closed, tail.drop_first()) == Seq::<StreamActionView>::empty());
    assert(run(ev, StreamPhase::Open, tail) =~= seq![StreamActionView::Close]);
    assert(emissions(ev, reqs) + seq![StreamActionView::Close] =~= emissions(ev, reqs).push(
        StreamActionView::Close,
    ));
}

/// A stream cancelled after `k` requests answers those `k` and sends nothing
/// after the cancellation, whatever follows it.
pub proof fn lemma_cancel_stops_emission<E: Evaluator>(
    ev: E,
    reqs: Seq<BidContextView>,
    rest: Seq<StreamEventView>,
)
    ensures
        run(ev, StreamPhase::Open, arrivals(reqs) + seq![StreamEventView::Cancelled] + rest)
            == emissions(ev, reqs) + silence(rest.len() + 1),
{
    let tail = seq![StreamEventView::Cancelled] + rest;
    lemma_arrivals_answered_in_order(ev, reqs, tail);
    assert(arrivals(reqs) + seq![StreamEventView::Cancelled] + rest =~= arrivals(reqs) + tail);
    lemma_ended_session_is_silent(ev, StreamPhase::Cancelled, rest);
    assert(tail.drop_first() =~= rest);
    assert(run(ev, StreamPhase::Open, tail) =~= silence(rest.len() + 1));
}

/// A stream on which a message cannot be decoded answers the requests before it,
/// then aborts, and processes nothing after it.
pub proof fn lemma_decode_failure_aborts<E: Evaluator>(
    ev: E,
    reqs: Seq<BidContextView>,
    rest: Seq<StreamEventView>,
)
    ensures
        run(ev, StreamPhase::Open, arrivals(reqs) + seq![StreamEventView::DecodeFailed] + rest)
            == emissions(ev, reqs) + seq![StreamActionView::Abort] + silence(rest.len()),
{
    let tail = seq![StreamEventView::DecodeFailed] + rest;
    lemma_arrivals_answered_in_order(ev, reqs, tail);
    assert(arrivals(reqs) + seq![StreamEventView::DecodeFailed] + rest =~= arrivals(reqs) + tail);
    lemma_ended_session_is_silent(ev, StreamPhase::Failed, rest);
    assert(tail.drop_first() =~= rest);
    let abort = seq![StreamActionView::Abort];
    assert(run(ev, StreamPhase::Open, tail) =~= abort + silence(rest.len()));
    assert(emissions(ev, reqs) + (abort + silence(rest.len())) =~= emissions(ev, reqs) + abort
        + silence(rest.len()));
}

/// One stream session.
pub struct StreamSession {
    phase: StreamPhase,
}

impl StreamSession {
    pub closed spec fn spec_phase(&self) -> StreamPhase {
        self.phase
    }

    /// A session that has received nothing yet.
    pub fn new() -> (r: StreamSession)
        ensures
            r.spec_phase() == StreamPhase::Open,
    {
        StreamSession { phase: StreamPhase::Open }
    }

    /// Where the session stands.
    pub fn phase(&self) -> (r: StreamPhase)
        ensures
            r == self.spec_phase(),
    {
        self.phase
    }

    /// Decide the action for one event, and move on.
    pub fn step<E: Evaluator>(&mut self, evaluator: &E, event: StreamEvent) -> (r: StreamAction)
        ensures
            r@ == reaction(*evaluator, old(self).spec_phase(), event@),
            final(self).spec_phase() == next_phase(old(self).spec_phase(), event@),
    {
        if self.phase != StreamPhase::Open {
            return StreamAction::Nothing;
        }
        match event {
            StreamEvent::Received(req) => StreamAction::Emit(evaluator.evaluate(req)),
            StreamEvent::DecodeFailed => {
                self.phase = StreamPhase::Failed;
                StreamAction::Abort
            },
            StreamEvent::InputEnded => {
                self.phase = StreamPhase::Closed;
                StreamAction::Close
            },
            StreamEvent::Cancelled => {
                self.phase = StreamPhase::Cancelled;
                StreamAction::Nothing
            },
        }
    }
}

/// The actions of a fresh session fed these events in order.
pub fn run_stream<E: Evaluator>(evaluator: &E, events: Vec<StreamEvent>) -> (r: Vec<StreamAction>)
    ensures
        r@.map_values(|a: StreamAction| a@) == run(
            *evaluator,
            StreamPhase::Open,
            events@.map_values(|e: StreamEvent| e@),
        ),
{
    let ghost all = events@.map_values(|e: StreamEvent| e@);
    let ghost ev = *evaluator;
    let mut events = events;
    let mut session = StreamSession::new();
    let mut out: Vec<StreamAction> = Vec::new();
    while events.len() > 0
        invariant
            ev == *evaluator,
            out@.map_values(|a: StreamAction| a@) + run(
                ev,
                session.spec_phase(),
                events@.map_values(|e: StreamEvent| e@),
            ) == run(ev, StreamPhase::Open, all),
        decreases events@.len(),
    {
        let ghost rest = events@.map_values(|e: StreamEvent| e@);
        let ghost before = out@.map_values(|a: StreamAction| a@);
        let ghost p = session.spec_phase();
        let e = events.remove(0);
        let a = session.step(evaluator, e);
        out.push(a);
        proof {
            let q = session.spec_phase();
            let act = reaction(ev, p, rest[0]);
            assert(events@.map_values(|e: StreamEvent| e@) =~= rest.drop_first());
            assert(out@.map_values(|a: StreamAction| a@) =~= before.push(act));
            assert(run(ev, p, rest) == seq![act] + run(ev, q, rest.drop_first()));
            assert(before + (seq![act] + run(ev, q, rest.drop_first())) =~= before.push(act) + run(
                ev,
                q,
                rest.drop_first(),
            ));
        }
    }
    proof {
        assert(events@.map_values(|e: StreamEvent| e@) =~= Seq::<StreamEventView>::empty());
        assert(out@.map_values(|a: StreamAction| a@) + seq![] =~= out@.map_values(
            |a: StreamAction| a@,
        ));
    }
    out
}

} // verus!
