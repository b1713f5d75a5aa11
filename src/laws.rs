//! Properties of whole runs of an exchange, stated over the phases and
//! actions that [`Exchange::step`](crate::bridge::Exchange::step) follows.

use crate::bridge::{
    accepts, bad_request_model, next, ActionModel, EventModel, Failure, HeadModel, Phase,
};
use vstd::prelude::*;

verus! {

/// The phase reached and the actions asked for when an exchange in phase
/// `p` takes the events `evs` in order.
pub open spec fn run(p: Phase, evs: Seq<EventModel>) -> (Phase, Seq<ActionModel>)
    decreases evs.len(),
{
    if evs.len() == 0 {
        (p, Seq::empty())
    } else {
        let (q, a) = next(p, evs[0]);
        let (f, rest) = run(q, evs.drop_first());
        (f, seq![a] + rest)
    }
}

/// Each of the events `evs` answers the action asked for before it.
pub open spec fn valid_run(p: Phase, evs: Seq<EventModel>) -> bool
    decreases evs.len(),
{
    evs.len() == 0 || (accepts(p, evs[0]) && valid_run(next(p, evs[0]).0, evs.drop_first()))
}

/// The events that deliver `chunks` as the request body, one by one.
pub open spec fn chunk_events(chunks: Seq<Seq<u8>>) -> Seq<EventModel> {
    chunks.map_values(|c: Seq<u8>| EventModel::Chunk(c))
}

/// The events of a request that resolves and delivers `chunks` as its body.
pub open spec fn request_events(chunks: Seq<Seq<u8>>) -> Seq<EventModel> {
    seq![EventModel::Resolved] + chunk_events(chunks) + seq![EventModel::BodyEnd]
}

/// The events of a response of head `head` and body `body` that the router
/// gives and that the stream takes without failure.
pub open spec fn response_events(head: HeadModel, body: Seq<u8>) -> Seq<EventModel> {
    seq![EventModel::Responded(head), EventModel::Sent, EventModel::Collected(body)] + (if body.len()
        > 0 {
        seq![EventModel::Sent]
    } else {
        Seq::empty()
    }) + seq![EventModel::Sent]
}

/// The actions that answer such a response: the head, then the body only
/// when it is not empty, then the finish.
pub open spec fn response_actions(head: HeadModel, body: Seq<u8>) -> Seq<ActionModel> {
    seq![ActionModel::SendHead(head), ActionModel::CollectBody] + (if body.len() > 0 {
        seq![ActionModel::SendBody(body)]
    } else {
        Seq::empty()
    }) + seq![ActionModel::Finish, ActionModel::Return(Ok(()))]
}

/// How many of `acts` call the router.
pub open spec fn router_calls(acts: Seq<ActionModel>) -> nat
    decreases acts.len(),
{
    if acts.len() == 0 {
        0
    } else {
        (if acts[0] is CallRouter {
            1nat
        } else {
            0nat
        }) + router_calls(acts.drop_first())
    }
}

/// How many times the router has been called by an exchange that reached
/// phase `p` from the start.
pub open spec fn calls_made(p: Phase) -> nat {
    match p {
        Phase::Resolving | Phase::Reading(_) | Phase::RejectingHead | Phase::RejectingFinish => 0,
        Phase::Done(Err(Failure::Resolve)) | Phase::Done(Err(Failure::BodyRead)) => 0,
        _ => 1,
    }
}

/// Running `a` and then `b` is running `a + b`.
pub proof fn lemma_run_append(p: Phase, a: Seq<EventModel>, b: Seq<EventModel>)
    ensures
        run(p, a + b) == (run(run(p, a).0, b).0, run(p, a).1 + run(run(p, a).0, b).1),
        valid_run(p, a + b) == (valid_run(p, a) && valid_run(run(p, a).0, b)),
    decreases a.len(),
{
    if a.len() == 0 {
        assert(a + b =~= b);
        assert(run(p, a).1 + run(p, b).1 =~= run(p, b).1);
    } else {
        let q = next(p, a[0]).0;
        assert((a + b).drop_first() =~= a.drop_first() + b);
        lemma_run_append(q, a.drop_first(), b);
        let r1 = run(q, a.drop_first());
        let r2 = run(r1.0, b);
        assert(seq![next(p, a[0]).1] + (r1.1 + r2.1) =~= (seq![next(p, a[0]).1] + r1.1) + r2.1);
    }
}

/// Running a single event is taking one step.
pub proof fn lemma_run_one(p: Phase, e: EventModel)
    ensures
        run(p, seq![e]) == (next(p, e).0, seq![next(p, e).1]),
        valid_run(p, seq![e]) == accepts(p, e),
{
    assert(seq![e].drop_first() =~= Seq::<EventModel>::empty());
    reveal_with_fuel(run, 2);
    reveal_with_fuel(valid_run, 2);
    assert(seq![next(p, e).1] + Seq::<ActionModel>::empty() =~= seq![next(p, e).1]);
}

/// Reading the chunks of a body appends each to the buffer, in order of
/// arrival, and asks for one more chunk after each.
pub proof fn lemma_reading_chunks(prefix: Seq<u8>, chunks: Seq<Seq<u8>>)
    requires
        prefix.len() + chunks.flatten().len() <= usize::MAX,
    ensures
        valid_run(Phase::Reading(prefix), chunk_events(chunks)),
        run(Phase::Reading(prefix), chunk_events(chunks)) == (
            Phase::Reading(prefix + chunks.flatten()),
            Seq::new(chunks.len(), |i: int| ActionModel::ReadChunk),
        ),
    decreases chunks.len(),
{
    let evs = chunk_events(chunks);
    if chunks.len() == 0 {
        assert(prefix + chunks.flatten() =~= prefix);
        assert(Seq::new(chunks.len(), |i: int| ActionModel::ReadChunk) =~= Seq::<
            ActionModel,
        >::empty());
    } else {
        let rest = chunks.drop_first();
        assert(evs.drop_first() =~= chunk_events(rest));
        lemma_reading_chunks(prefix + chunks[0], rest);
        assert(prefix + chunks[0] + rest.flatten() =~= prefix + chunks.flatten());
        assert(seq![ActionModel::ReadChunk] + Seq::new(rest.len(), |i: int| ActionModel::ReadChunk)
            =~= Seq::new(chunks.len(), |i: int| ActionModel::ReadChunk));
    }
}

/// The body handed to the router is the concatenation of the chunks that
/// the transport delivered, in order of arrival. The body must fit in
/// memory: its length is within `usize`.
pub proof fn body_is_concatenation(chunks: Seq<Seq<u8>>)
    requires
        chunks.flatten().len() <= usize::MAX,
    ensures
        valid_run(Phase::Resolving, request_events(chunks)),
        run(Phase::Resolving, request_events(chunks)).0 == Phase::Routing,
        run(Phase::Resolving, request_events(chunks)).1.last() == ActionModel::CallRouter(
            chunks.flatten(),
        ),
{
    let evs = request_events(chunks);
    let head = seq![EventModel::Resolved];
    let tail = seq![EventModel::BodyEnd];
    lemma_reading_chunks(Seq::empty(), chunks);
    assert(Seq::<u8>::empty() + chunks.flatten() =~= chunks.flatten());
    lemma_run_append(Phase::Resolving, head, chunk_events(chunks));
    lemma_run_append(Phase::Resolving, head + chunk_events(chunks), tail);
    lemma_run_one(Phase::Resolving, EventModel::Resolved);
    let mid = run(Phase::Resolving, head + chunk_events(chunks));
    assert(mid.0 == Phase::Reading(chunks.flatten()));
    lemma_run_one(mid.0, EventModel::BodyEnd);
}

/// For a request that resolves and delivers its body, and a response that
/// the stream takes without failure, the exchange sends exactly one head,
/// then the body once if it is not empty and never otherwise, then exactly
/// one finish, and succeeds.
pub proof fn response_in_order(chunks: Seq<Seq<u8>>, head: HeadModel, body: Seq<u8>)
    requires
        chunks.flatten().len() <= usize::MAX,
    ensures
        valid_run(Phase::Resolving, request_events(chunks) + response_events(head, body)),
        run(Phase::Resolving, request_events(chunks) + response_events(head, body)) == (
            Phase::Done(Ok(())),
            run(Phase::Resolving, request_events(chunks)).1 + response_actions(head, body),
        ),
{
    body_is_concatenation(chunks);
    lemma_run_append(Phase::Resolving, request_events(chunks), response_events(head, body));
    let evs = response_events(head, body);
    let p1 = next(Phase::Routing, evs[0]).0;
    let p2 = next(p1, evs[1]).0;
    let p3 = next(p2, evs[2]).0;
    assert(evs.drop_first().drop_first().drop_first().drop_first().len() == (if body.len() > 0 {
        1int
    } else {
        0
    }));
    if body.len() > 0 {
        assert(evs.drop_first().drop_first().drop_first().drop_first().drop_first() =~= Seq::<
            EventModel,
        >::empty());
    } else {
        assert(evs.drop_first().drop_first().drop_first().drop_first() =~= Seq::<
            EventModel,
        >::empty());
    }
    reveal_with_fuel(run, 6);
    reveal_with_fuel(valid_run, 6);
    assert(run(Phase::Routing, evs).1 =~= response_actions(head, body));
}

/// A failed body read is answered with a "Bad Request" head and a finish,
/// and the read error is returned, whether or not those two sends succeed.
pub proof fn read_failure_is_rejected(prefix: Seq<u8>, head_sent: EventModel, finish_sent: EventModel)
    requires
        head_sent is Sent || head_sent is SendFailed,
        finish_sent is Sent || finish_sent is SendFailed,
    ensures
        valid_run(Phase::Reading(prefix), seq![EventModel::ReadFailed, head_sent, finish_sent]),
        run(Phase::Reading(prefix), seq![EventModel::ReadFailed, head_sent, finish_sent]) == (
            Phase::Done(Err(Failure::BodyRead)),
            seq![
                ActionModel::SendHead(bad_request_model()),
                ActionModel::Finish,
                ActionModel::Return(Err(Failure::BodyRead)),
            ],
        ),
{
    let evs = seq![EventModel::ReadFailed, head_sent, finish_sent];
    assert(evs.drop_first() =~= seq![head_sent, finish_sent]);
    assert(evs.drop_first().drop_first() =~= seq![finish_sent]);
    assert(evs.drop_first().drop_first().drop_first() =~= Seq::<EventModel>::empty());
    reveal_with_fuel(run, 4);
    reveal_with_fuel(valid_run, 4);
    assert(run(Phase::Reading(prefix), evs).1 =~= seq![
        ActionModel::SendHead(bad_request_model()),
        ActionModel::Finish,
        ActionModel::Return(Err(Failure::BodyRead)),
    ]);
}

/// Each step asks for a router call exactly when it moves the exchange from
/// not having called the router to having called it.
pub proof fn lemma_calls_counted(p: Phase, evs: Seq<EventModel>)
    requires
        valid_run(p, evs),
    ensures
        calls_made(p) + router_calls(run(p, evs).1) == calls_made(run(p, evs).0),
    decreases evs.len(),
{
    if evs.len() > 0 {
        let (q, a) = next(p, evs[0]);
        lemma_calls_counted(q, evs.drop_first());
        let acts = run(p, evs).1;
        assert(acts.drop_first() =~= run(q, evs.drop_first()).1);
    }
}

/// Whatever the transport and the router do, an exchange calls the router
/// at most once, and exactly once when it succeeds, whether the body came
/// in no chunk or in many.
pub proof fn router_called_once(evs: Seq<EventModel>)
    requires
        valid_run(Phase::Resolving, evs),
    ensures
        router_calls(run(Phase::Resolving, evs).1) <= 1,
        run(Phase::Resolving, evs).0 == Phase::Done(Ok(())) ==> router_calls(
            run(Phase::Resolving, evs).1,
        ) == 1,
{
    lemma_calls_counted(Phase::Resolving, evs);
}

/// How many of `acts` satisfy `f`.
pub open spec fn count(acts: Seq<ActionModel>, f: spec_fn(ActionModel) -> bool) -> nat
    decreases acts.len(),
{
    if acts.len() == 0 {
        0
    } else {
        (if f(acts[0]) {
            1nat
        } else {
            0nat
        }) + count(acts.drop_first(), f)
    }
}

/// Each step asks for an action that satisfies `f` only while it raises the
/// measure `m` of the phase.
pub open spec fn bounds(f: spec_fn(ActionModel) -> bool, m: spec_fn(Phase) -> nat) -> bool {
    forall|p: Phase, e: EventModel|
        accepts(p, e) ==> (if f(#[trigger] next(p, e).1) {
            1nat
        } else {
            0nat
        }) + m(p) <= m(next(p, e).0)
}

/// Whether a response head has been sent by an exchange in phase `p`.
pub open spec fn head_sent(p: Phase) -> nat {
    match p {
        Phase::Resolving | Phase::Reading(_) | Phase::Routing => 0,
        Phase::Done(Err(Failure::Resolve)) | Phase::Done(Err(Failure::Router)) => 0,
        _ => 1,
    }
}

/// Whether response body bytes may have been sent by an exchange in phase `p`.
pub open spec fn body_sent(p: Phase) -> nat {
    match p {
        Phase::SendingBody | Phase::Finishing | Phase::Done(Ok(())) => 1,
        Phase::Done(Err(Failure::SendBody)) | Phase::Done(Err(Failure::Finish)) => 1,
        _ => 0,
    }
}

/// Whether the stream has been finished by an exchange in phase `p`.
pub open spec fn finished(p: Phase) -> nat {
    match p {
        Phase::Finishing | Phase::RejectingFinish | Phase::Done(Ok(())) => 1,
        Phase::Done(Err(Failure::Finish)) | Phase::Done(Err(Failure::BodyRead)) => 1,
        _ => 0,
    }
}

/// Over a run, the actions that satisfy `f` raise the measure `m` by at
/// least their number.
pub proof fn lemma_bounded_run(
    f: spec_fn(ActionModel) -> bool,
    m: spec_fn(Phase) -> nat,
    p: Phase,
    evs: Seq<EventModel>,
)
    requires
        bounds(f, m),
        valid_run(p, evs),
    ensures
        count(run(p, evs).1, f) + m(p) <= m(run(p, evs).0),
    decreases evs.len(),
{
    if evs.len() > 0 {
        let (q, a) = next(p, evs[0]);
        lemma_bounded_run(f, m, q, evs.drop_first());
        let acts = run(p, evs).1;
        assert(acts.drop_first() =~= run(q, evs.drop_first()).1);
    }
}

/// Whatever the transport and the router do, an exchange sends at most one
/// response head, at most one body, and finishes the stream at most once.
pub proof fn sends_never_duplicated(evs: Seq<EventModel>)
    requires
        valid_run(Phase::Resolving, evs),
    ensures
        count(run(Phase::Resolving, evs).1, |a: ActionModel| a is SendHead) <= 1,
        count(run(Phase::Resolving, evs).1, |a: ActionModel| a is SendBody) <= 1,
        count(run(Phase::Resolving, evs).1, |a: ActionModel| a is Finish) <= 1,
{
    let heads = |a: ActionModel| a is SendHead;
    let bodies = |a: ActionModel| a is SendBody;
    let finishes = |a: ActionModel| a is Finish;
    let hm = |p: Phase| head_sent(p);
    let bm = |p: Phase| body_sent(p);
    let fm = |p: Phase| finished(p);
    assert(bounds(heads, hm));
    assert(bounds(bodies, bm));
    assert(bounds(finishes, fm));
    lemma_bounded_run(heads, hm, Phase::Resolving, evs);
    lemma_bounded_run(bodies, bm, Phase::Resolving, evs);
    lemma_bounded_run(finishes, fm, Phase::Resolving, evs);
    let last = run(Phase::Resolving, evs).0;
    assert(head_sent(last) <= 1);
    assert(body_sent(last) <= 1);
    assert(finished(last) <= 1);
}

} // verus!
