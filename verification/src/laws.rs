//! What holds of the negotiation coordinator, proved over its model.
//!
//! Every statement here is about [`ClientView::step`] and the functions it is
//! made of, which are exactly what the methods of
//! [`crate::client::WebSocketClient`] are proved to compute.

use vstd::prelude::*;
use crate::client::{ActionView, ClientView, EventView, Fault, JobView, NegotiationState};
use crate::client::{fault_of, lemma_step_keeps_wf};
use crate::json::json_document;
use crate::message::{IceCandidateView, SdpKind, SessionDescriptionView, SignalingMessageView};
use crate::message::describing_spec;
use crate::webrtc_peer_connection::{CompletionView, ConnectionView, EngineCommandView};
use crate::webrtc_peer_connection::{EngineReplyView, Operation, resolve_spec};
use crate::wire::{DecodeError, RawCandidateView, RawMessageView};
use crate::wire::{classify_outcome_spec, classify_spec, interpret_spec};

verus! {

/// The client after a sequence of events, and all the actions that they
/// call for, in order.
pub open spec fn run(c: ClientView, events: Seq<EventView>) -> (ClientView, Seq<ActionView>)
    decreases events.len(),
{
    if events.len() == 0 {
        (c, Seq::<ActionView>::empty())
    } else {
        let first = c.step(events[0]);
        let rest = run(first.0, events.drop_first());
        (rest.0, first.1 + rest.1)
    }
}

/// An offer with the given SDP text.
pub open spec fn offer_of(sdp: Seq<char>) -> SessionDescriptionView {
    SessionDescriptionView { kind: SdpKind::Offer, sdp }
}

/// An answer with the given SDP text.
pub open spec fn answer_of(sdp: Seq<char>) -> SessionDescriptionView {
    SessionDescriptionView { kind: SdpKind::Answer, sdp }
}

/// Whether an action sends something to the peer.
pub open spec fn is_send(a: ActionView) -> bool {
    a is Send
}

/// Whether no action of a sequence sends something to the peer.
pub open spec fn sends_nothing(actions: Seq<ActionView>) -> bool {
    forall|i: int| 0 <= i < actions.len() ==> !is_send(#[trigger] actions[i])
}

/// Unfolds `run` for one event followed by more.
proof fn lemma_run_unfold(c: ClientView, event: EventView, rest: Seq<EventView>)
    ensures
        run(c, seq![event] + rest) == (
            run(c.step(event).0, rest).0,
            c.step(event).1 + run(c.step(event).0, rest).1,
        ),
{
    let events = seq![event] + rest;
    assert(events[0] == event);
    assert(events.drop_first() =~= rest);
}

/// Unfolds `run` for no event.
proof fn lemma_run_empty(c: ClientView)
    ensures
        run(c, Seq::<EventView>::empty()) == (c, Seq::<ActionView>::empty()),
{
}

/// A peer's offer is answered.
///
/// A client that is not closed and whose engine is free takes an offer with
/// SDP text `sdp`. If the engine then applies the offer, creates an answer
/// with text `created` and commits it with text `committed`, the actions are
/// exactly these four: apply the offer, create an answer, commit the created
/// answer, send the answer as committed. The client ends in `Stable`, with
/// the committed answer as its local description and the engine free.
pub proof fn law_offer_is_answered(
    c: ClientView,
    sdp: Seq<char>,
    created: Seq<char>,
    committed: Seq<char>,
)
    requires
        c.wf(),
        c.state != NegotiationState::Closed,
        c.peer.in_flight is None,
    ensures
        ({
            let end = run(
                c,
                seq![
                    EventView::Received(SignalingMessageView::Offer(offer_of(sdp))),
                    EventView::EngineReplied(EngineReplyView::Done),
                    EventView::EngineReplied(EngineReplyView::Description(created)),
                    EventView::EngineReplied(EngineReplyView::Description(committed)),
                ],
            );
            &&& end.1 == seq![
                ActionView::Engine(EngineCommandView::SetRemoteDescription(offer_of(sdp))),
                ActionView::Engine(EngineCommandView::CreateAnswer),
                ActionView::Engine(EngineCommandView::SetLocalDescription(answer_of(created))),
                ActionView::Send(SignalingMessageView::Answer(answer_of(committed))),
            ]
            &&& end.0.state == NegotiationState::Stable
            &&& end.0.peer.local == Some(answer_of(committed))
            &&& end.0.peer.in_flight is None
        }),
{
    let e1 = EventView::Received(SignalingMessageView::Offer(offer_of(sdp)));
    let e2 = EventView::EngineReplied(EngineReplyView::Done);
    let e3 = EventView::EngineReplied(EngineReplyView::Description(created));
    let e4 = EventView::EngineReplied(EngineReplyView::Description(committed));
    let c1 = c.step(e1).0;
    let c2 = c1.step(e2).0;
    let c3 = c2.step(e3).0;
    let c4 = c3.step(e4).0;
    let none = Seq::<EventView>::empty();
    assert(seq![e1, e2, e3, e4] =~= seq![e1] + (seq![e2] + (seq![e3] + (seq![e4] + none))));
    lemma_run_unfold(c, e1, seq![e2] + (seq![e3] + (seq![e4] + none)));
    lemma_run_unfold(c1, e2, seq![e3] + (seq![e4] + none));
    lemma_run_unfold(c2, e3, seq![e4] + none);
    lemma_run_unfold(c3, e4, none);
    lemma_run_empty(c4);
    assert(c.backlog.len() == 0);
    assert(c4.backlog.len() == 0);
    let end = run(c, seq![e1, e2, e3, e4]);
    assert(end.1 =~= seq![
        ActionView::Engine(EngineCommandView::SetRemoteDescription(offer_of(sdp))),
        ActionView::Engine(EngineCommandView::CreateAnswer),
        ActionView::Engine(EngineCommandView::SetLocalDescription(answer_of(created))),
        ActionView::Send(SignalingMessageView::Answer(answer_of(committed))),
    ]);
}

/// The candidate that a job hands to the engine, if it is a candidate job.
pub open spec fn job_candidate(j: JobView) -> Seq<IceCandidateView> {
    match j {
        JobView::RemoteCandidate(k) => seq![k],
        _ => Seq::<IceCandidateView>::empty(),
    }
}

/// The candidate that an action hands to the engine, if it does so.
pub open spec fn action_candidate(a: ActionView) -> Seq<IceCandidateView> {
    match a {
        ActionView::Engine(EngineCommandView::AddIceCandidate(k)) => seq![k],
        _ => Seq::<IceCandidateView>::empty(),
    }
}

/// The candidate that an event brings from the peer, if it brings one.
pub open spec fn event_candidate(e: EventView) -> Seq<IceCandidateView> {
    match e {
        EventView::Received(SignalingMessageView::IceCandidate(k)) => seq![k],
        _ => Seq::<IceCandidateView>::empty(),
    }
}

/// The candidates that wait in a backlog, oldest first.
pub open spec fn candidates_waiting(backlog: Seq<JobView>) -> Seq<IceCandidateView>
    decreases backlog.len(),
{
    if backlog.len() == 0 {
        Seq::<IceCandidateView>::empty()
    } else {
        candidates_waiting(backlog.drop_last()) + job_candidate(backlog.last())
    }
}

/// The candidates that a sequence of actions hands to the engine, in order.
pub open spec fn candidates_added(actions: Seq<ActionView>) -> Seq<IceCandidateView>
    decreases actions.len(),
{
    if actions.len() == 0 {
        Seq::<IceCandidateView>::empty()
    } else {
        candidates_added(actions.drop_last()) + action_candidate(actions.last())
    }
}

/// The candidates that a sequence of events brings from the peer, in order.
pub open spec fn candidates_received(events: Seq<EventView>) -> Seq<IceCandidateView>
    decreases events.len(),
{
    if events.len() == 0 {
        Seq::<IceCandidateView>::empty()
    } else {
        candidates_received(events.drop_last()) + event_candidate(events.last())
    }
}

/// Whether an event closes the client.
pub open spec fn closes(e: EventView) -> bool {
    e is ChannelFailed || e is ChannelClosed
}

proof fn lemma_waiting_concat(a: Seq<JobView>, b: Seq<JobView>)
    ensures
        candidates_waiting(a + b) == candidates_waiting(a) + candidates_waiting(b),
    decreases b.len(),
{
    if b.len() == 0 {
        assert(a + b =~= a);
        assert(candidates_waiting(a) + candidates_waiting(b) =~= candidates_waiting(a));
    } else {
        assert((a + b).drop_last() =~= a + b.drop_last());
        assert((a + b).last() == b.last());
        lemma_waiting_concat(a, b.drop_last());
        assert(candidates_waiting(a + b) =~= candidates_waiting(a) + candidates_waiting(b));
    }
}

proof fn lemma_added_concat(a: Seq<ActionView>, b: Seq<ActionView>)
    ensures
        candidates_added(a + b) == candidates_added(a) + candidates_added(b),
    decreases b.len(),
{
    if b.len() == 0 {
        assert(a + b =~= a);
        assert(candidates_added(a) + candidates_added(b) =~= candidates_added(a));
    } else {
        assert((a + b).drop_last() =~= a + b.drop_last());
        assert((a + b).last() == b.last());
        lemma_added_concat(a, b.drop_last());
        assert(candidates_added(a + b) =~= candidates_added(a) + candidates_added(b));
    }
}

proof fn lemma_received_concat(a: Seq<EventView>, b: Seq<EventView>)
    ensures
        candidates_received(a + b) == candidates_received(a) + candidates_received(b),
    decreases b.len(),
{
    if b.len() == 0 {
        assert(a + b =~= a);
        assert(candidates_received(a) + candidates_received(b) =~= candidates_received(a));
    } else {
        assert((a + b).drop_last() =~= a + b.drop_last());
        assert((a + b).last() == b.last());
        lemma_received_concat(a, b.drop_last());
        assert(candidates_received(a + b) =~= candidates_received(a) + candidates_received(b));
    }
}

proof fn lemma_waiting_one(j: JobView)
    ensures
        candidates_waiting(seq![j]) == job_candidate(j),
{
    reveal_with_fuel(candidates_waiting, 2);
    assert(seq![j].drop_last() =~= Seq::<JobView>::empty());
    assert(candidates_waiting(seq![j]) =~= job_candidate(j));
}

proof fn lemma_added_one(a: ActionView)
    ensures
        candidates_added(seq![a]) == action_candidate(a),
{
    reveal_with_fuel(candidates_added, 2);
    assert(seq![a].drop_last() =~= Seq::<ActionView>::empty());
    assert(candidates_added(seq![a]) =~= action_candidate(a));
}

proof fn lemma_received_one(e: EventView)
    ensures
        candidates_received(seq![e]) == event_candidate(e),
{
    reveal_with_fuel(candidates_received, 2);
    assert(seq![e].drop_last() =~= Seq::<EventView>::empty());
    assert(candidates_received(seq![e]) =~= event_candidate(e));
}

/// Beginning a job on a free engine hands its candidate to the engine.
proof fn lemma_start_adds(c: ClientView, job: JobView)
    requires
        c.peer.in_flight is None,
    ensures
        candidates_added(c.start(job).1) == job_candidate(job),
        c.start(job).0.backlog == c.backlog,
        c.start(job).0.state == c.state,
{
    lemma_added_one(ActionView::Engine(job.first_command()));
}

/// Beginning the oldest waiting job takes its candidate from the backlog
/// and hands it to the engine.
proof fn lemma_advance_adds(c: ClientView)
    requires
        c.peer.in_flight is None,
    ensures
        candidates_added(c.advance().1) + candidates_waiting(c.advance().0.backlog)
            == candidates_waiting(c.backlog),
        c.advance().0.state == c.state,
{
    if c.backlog.len() == 0 {
        assert(candidates_added(c.advance().1) + candidates_waiting(c.backlog)
            =~= candidates_waiting(c.backlog));
    } else {
        let head = c.backlog[0];
        let rest = c.backlog.drop_first();
        lemma_start_adds(ClientView { backlog: rest, ..c }, head);
        assert(c.backlog =~= seq![head] + rest);
        lemma_waiting_concat(seq![head], rest);
        lemma_waiting_one(head);
    }
}

/// One event neither drops nor reorders a candidate.
proof fn lemma_step_keeps_candidates(c: ClientView, e: EventView)
    requires
        c.wf(),
        c.state != NegotiationState::Closed,
        !closes(e),
    ensures
        candidates_added(c.step(e).1) + candidates_waiting(c.step(e).0.backlog)
            == candidates_waiting(c.backlog) + event_candidate(e),
        c.step(e).0.state != NegotiationState::Closed,
{
    let after = c.step(e);
    let none = Seq::<IceCandidateView>::empty();
    match e {
        EventView::Received(m) => {
            match m {
                SignalingMessageView::Opaque(t) => {
                    lemma_added_one(ActionView::Deliver(t));
                    assert(candidates_added(after.1) + candidates_waiting(after.0.backlog)
                        =~= candidates_waiting(c.backlog) + event_candidate(e));
                },
                _ => {
                    let job = match m {
                        SignalingMessageView::Offer(d) => JobView::RemoteOffer(d.sdp),
                        SignalingMessageView::Answer(d) => JobView::RemoteAnswer(d.sdp),
                        SignalingMessageView::IceCandidate(k) => JobView::RemoteCandidate(k),
                        SignalingMessageView::Opaque(t) => JobView::LocalOffer,
                    };
                    assert(job_candidate(job) == event_candidate(e));
                    lemma_submit_keeps_candidates(c, job);
                },
            }
        },
        EventView::OfferRequested => {
            if c.offer_outstanding() {
                lemma_added_one(ActionView::Report(Fault::OfferOutstanding));
                assert(candidates_added(after.1) + candidates_waiting(after.0.backlog)
                    =~= candidates_waiting(c.backlog) + event_candidate(e));
            } else {
                lemma_submit_keeps_candidates(c, JobView::LocalOffer);
            }
        },
        EventView::EngineReplied(r) => {
            lemma_reply_keeps_candidates(c, r);
            assert(candidates_waiting(c.backlog) + event_candidate(e) =~= candidates_waiting(
                c.backlog,
            ));
        },
        EventView::CandidateFound(k) => {
            lemma_added_one(ActionView::Send(SignalingMessageView::IceCandidate(k)));
            assert(candidates_added(after.1) + candidates_waiting(after.0.backlog)
                =~= candidates_waiting(c.backlog) + event_candidate(e));
        },
        _ => {},
    }
}

/// Taking a job neither drops nor reorders a candidate.
proof fn lemma_submit_keeps_candidates(c: ClientView, job: JobView)
    requires
        c.wf(),
        c.state != NegotiationState::Closed,
    ensures
        candidates_added(c.submit(job).1) + candidates_waiting(c.submit(job).0.backlog)
            == candidates_waiting(c.backlog) + job_candidate(job),
        c.submit(job).0.state == c.state,
{
    let after = c.submit(job);
    if c.peer.in_flight is Some {
        assert(c.backlog.push(job) =~= c.backlog + seq![job]);
        lemma_waiting_concat(c.backlog, seq![job]);
        lemma_waiting_one(job);
        assert(candidates_added(after.1) + candidates_waiting(after.0.backlog)
            =~= candidates_waiting(c.backlog) + job_candidate(job));
    } else {
        lemma_start_adds(c, job);
        assert(c.backlog.len() == 0);
        assert(candidates_added(after.1) + candidates_waiting(after.0.backlog)
            =~= candidates_waiting(c.backlog) + job_candidate(job));
    }
}

/// The engine's reply neither drops nor reorders a candidate.
proof fn lemma_reply_keeps_candidates(c: ClientView, reply: EngineReplyView)
    requires
        c.wf(),
        c.state != NegotiationState::Closed,
    ensures
        candidates_added(c.reply(reply).1) + candidates_waiting(c.reply(reply).0.backlog)
            == candidates_waiting(c.backlog),
        c.reply(reply).0.state != NegotiationState::Closed,
{
    let after = c.reply(reply);
    match c.peer.in_flight {
        None => {
            assert(candidates_added(after.1) + candidates_waiting(after.0.backlog)
                =~= candidates_waiting(c.backlog));
        },
        Some(op) => {
            let peer = c.peer.resolve(reply);
            match resolve_spec(op, reply) {
                Ok(CompletionView::Created(d)) => {
                    lemma_added_one(
                        ActionView::Engine(EngineCommandView::SetLocalDescription(d)),
                    );
                    assert(candidates_added(after.1) + candidates_waiting(after.0.backlog)
                        =~= candidates_waiting(c.backlog));
                },
                Ok(CompletionView::LocalCommitted(d)) => {
                    let mid = ClientView {
                        peer,
                        state: match d.kind {
                            SdpKind::Offer => NegotiationState::HaveLocalOffer,
                            SdpKind::Answer => NegotiationState::Stable,
                        },
                        ..c
                    };
                    let first = ActionView::Send(describing_spec(d));
                    lemma_advance_adds(mid);
                    lemma_added_one(first);
                    lemma_added_concat(seq![first], mid.advance().1);
                    assert(candidates_added(after.1) =~= candidates_added(mid.advance().1));
                },
                Ok(CompletionView::RemoteApplied(SdpKind::Offer)) => {
                    lemma_added_one(ActionView::Engine(EngineCommandView::CreateAnswer));
                    assert(candidates_added(after.1) + candidates_waiting(after.0.backlog)
                        =~= candidates_waiting(c.backlog));
                },
                Ok(CompletionView::RemoteApplied(SdpKind::Answer)) => {
                    lemma_advance_adds(ClientView { peer, state: NegotiationState::Stable, ..c });
                },
                Ok(CompletionView::CandidateAdded) => {
                    lemma_advance_adds(ClientView { peer, ..c });
                },
                Err(err) => {
                    let mid = ClientView { peer, ..c };
                    let first = ActionView::Report(fault_of(err));
                    lemma_advance_adds(mid);
                    lemma_added_one(first);
                    lemma_added_concat(seq![first], mid.advance().1);
                    assert(candidates_added(after.1) =~= candidates_added(mid.advance().1));
                },
            }
        },
    }
}

/// Candidates reach the engine in the order in which they arrived.
///
/// Take a client that is not closed and any sequence of events that does
/// not close it. The candidates handed to the engine along the way, followed
/// by those still waiting at the end, are exactly the candidates that waited
/// at the start followed by those that arrived, in the same order: none is
/// dropped, none is handed over twice, none overtakes another.
pub proof fn law_candidates_keep_arrival_order(c: ClientView, events: Seq<EventView>)
    requires
        c.wf(),
        c.state != NegotiationState::Closed,
        forall|i: int| 0 <= i < events.len() ==> !closes(#[trigger] events[i]),
    ensures
        candidates_added(run(c, events).1) + candidates_waiting(run(c, events).0.backlog)
            == candidates_waiting(c.backlog) + candidates_received(events),
        run(c, events).0.wf(),
        run(c, events).0.state != NegotiationState::Closed,
    decreases events.len(),
{
    if events.len() == 0 {
        assert(candidates_added(run(c, events).1) + candidates_waiting(c.backlog)
            =~= candidates_waiting(c.backlog) + candidates_received(events));
    } else {
        let e = events[0];
        let rest = events.drop_first();
        let first = c.step(e);
        let end = run(first.0, rest);
        assert(!closes(e));
        lemma_step_keeps_wf(c, e);
        lemma_step_keeps_candidates(c, e);
        assert forall|i: int| 0 <= i < rest.len() implies !closes(#[trigger] rest[i]) by {
            assert(rest[i] == events[i + 1]);
        }
        law_candidates_keep_arrival_order(first.0, rest);
        lemma_added_concat(first.1, end.1);
        assert(events =~= seq![e] + rest);
        lemma_received_concat(seq![e], rest);
        lemma_received_one(e);
        let a1 = candidates_added(first.1);
        let a2 = candidates_added(end.1);
        let w0 = candidates_waiting(c.backlog);
        let w1 = candidates_waiting(first.0.backlog);
        let w2 = candidates_waiting(end.0.backlog);
        let r1 = event_candidate(e);
        let r2 = candidates_received(rest);
        assert(a1 + w1 == w0 + r1);
        assert(a2 + w2 == w1 + r2);
        assert((a1 + a2) + w2 =~= a1 + (a2 + w2));
        assert(a1 + (w1 + r2) =~= (a1 + w1) + r2);
        assert((w0 + r1) + r2 =~= w0 + (r1 + r2));
    }
}

/// An answer from the peer produces no outbound message.
///
/// Taking the answer sends nothing, whatever the client's state. When the
/// engine resolves the operation that applies the answer, nothing is sent
/// either, whatever the engine replied; unless it refused, the client is
/// `Stable` afterwards.
pub proof fn law_answer_sends_nothing(c: ClientView, answer: SessionDescriptionView, reply: EngineReplyView)
    requires
        c.wf(),
    ensures
        sends_nothing(c.receive(SignalingMessageView::Answer(answer)).1),
        c.peer.in_flight == Some(Operation::SetRemoteDescription(SdpKind::Answer))
            ==> sends_nothing(c.reply(reply).1),
        c.peer.in_flight == Some(Operation::SetRemoteDescription(SdpKind::Answer)) && !(reply
            is Rejected) ==> c.reply(reply).0.state == NegotiationState::Stable,
{
}

/// A peer's answer, taken by a free client and applied by the engine, makes
/// the client `Stable` with exactly one action: the request to apply it.
pub proof fn law_answer_is_applied(c: ClientView, sdp: Seq<char>)
    requires
        c.wf(),
        c.state != NegotiationState::Closed,
        c.peer.in_flight is None,
    ensures
        ({
            let end = run(
                c,
                seq![
                    EventView::Received(SignalingMessageView::Answer(answer_of(sdp))),
                    EventView::EngineReplied(EngineReplyView::Done),
                ],
            );
            &&& end.1 == seq![
                ActionView::Engine(EngineCommandView::SetRemoteDescription(answer_of(sdp))),
            ]
            &&& end.0.state == NegotiationState::Stable
            &&& end.0.peer.in_flight is None
        }),
{
    let e1 = EventView::Received(SignalingMessageView::Answer(answer_of(sdp)));
    let e2 = EventView::EngineReplied(EngineReplyView::Done);
    let c1 = c.step(e1).0;
    let c2 = c1.step(e2).0;
    let none = Seq::<EventView>::empty();
    assert(seq![e1, e2] =~= seq![e1] + (seq![e2] + none));
    lemma_run_unfold(c, e1, seq![e2] + none);
    lemma_run_unfold(c1, e2, none);
    lemma_run_empty(c2);
    assert(c.backlog.len() == 0);
    assert(run(c, seq![e1, e2]).1 =~= seq![
        ActionView::Engine(EngineCommandView::SetRemoteDescription(answer_of(sdp))),
    ]);
}

/// A request for a local offer, made to a free client with no local offer
/// outstanding, yields exactly three actions when the engine creates an offer
/// with text `created` and commits it with text `committed`: create an offer,
/// commit the created offer, send the offer as committed. The client then
/// has a local offer.
pub proof fn law_local_offer_is_sent(c: ClientView, created: Seq<char>, committed: Seq<char>)
    requires
        c.wf(),
        c.state != NegotiationState::Closed,
        c.peer.in_flight is None,
        !c.offer_outstanding(),
    ensures
        ({
            let end = run(
                c,
                seq![
                    EventView::OfferRequested,
                    EventView::EngineReplied(EngineReplyView::Description(created)),
                    EventView::EngineReplied(EngineReplyView::Description(committed)),
                ],
            );
            &&& end.1 == seq![
                ActionView::Engine(EngineCommandView::CreateOffer),
                ActionView::Engine(EngineCommandView::SetLocalDescription(offer_of(created))),
                ActionView::Send(SignalingMessageView::Offer(offer_of(committed))),
            ]
            &&& end.0.state == NegotiationState::HaveLocalOffer
            &&& end.0.peer.local == Some(offer_of(committed))
            &&& end.0.peer.in_flight is None
            &&& end.0.wf()
        }),
{
    let e1 = EventView::OfferRequested;
    let e2 = EventView::EngineReplied(EngineReplyView::Description(created));
    let e3 = EventView::EngineReplied(EngineReplyView::Description(committed));
    let c1 = c.step(e1).0;
    let c2 = c1.step(e2).0;
    let c3 = c2.step(e3).0;
    let none = Seq::<EventView>::empty();
    assert(seq![e1, e2, e3] =~= seq![e1] + (seq![e2] + (seq![e3] + none)));
    lemma_run_unfold(c, e1, seq![e2] + (seq![e3] + none));
    lemma_run_unfold(c1, e2, seq![e3] + none);
    lemma_run_unfold(c2, e3, none);
    lemma_run_empty(c3);
    lemma_step_keeps_wf(c, e1);
    lemma_step_keeps_wf(c1, e2);
    lemma_step_keeps_wf(c2, e3);
    assert(c.backlog.len() == 0);
    assert(run(c, seq![e1, e2, e3]).1 =~= seq![
        ActionView::Engine(EngineCommandView::CreateOffer),
        ActionView::Engine(EngineCommandView::SetLocalDescription(offer_of(created))),
        ActionView::Send(SignalingMessageView::Offer(offer_of(committed))),
    ]);
}

/// Two peers reach `Stable` with one offer and one answer.
///
/// Peer `a` is asked for an offer and sends exactly one message, the offer as
/// its engine committed it. Peer `b` takes that message and sends exactly one
/// message, the answer as its engine committed it. Peer `a` takes that
/// message, asks its engine to apply it, and is `Stable` without having sent
/// anything more.
pub proof fn law_offer_answer_round(
    a: ClientView,
    b: ClientView,
    offer_created: Seq<char>,
    offer_committed: Seq<char>,
    answer_created: Seq<char>,
    answer_committed: Seq<char>,
)
    requires
        a.wf(),
        a.state != NegotiationState::Closed,
        a.peer.in_flight is None,
        !a.offer_outstanding(),
        b.wf(),
        b.state != NegotiationState::Closed,
        b.peer.in_flight is None,
    ensures
        ({
            let offer = SignalingMessageView::Offer(offer_of(offer_committed));
            let answer = SignalingMessageView::Answer(answer_of(answer_committed));
            let a1 = run(
                a,
                seq![
                    EventView::OfferRequested,
                    EventView::EngineReplied(EngineReplyView::Description(offer_created)),
                    EventView::EngineReplied(EngineReplyView::Description(offer_committed)),
                ],
            );
            let b1 = run(
                b,
                seq![
                    EventView::Received(offer),
                    EventView::EngineReplied(EngineReplyView::Done),
                    EventView::EngineReplied(EngineReplyView::Description(answer_created)),
                    EventView::EngineReplied(EngineReplyView::Description(answer_committed)),
                ],
            );
            let a2 = run(
                a1.0,
                seq![
                    EventView::Received(answer),
                    EventView::EngineReplied(EngineReplyView::Done),
                ],
            );
            &&& a1.1 == seq![
                ActionView::Engine(EngineCommandView::CreateOffer),
                ActionView::Engine(
                    EngineCommandView::SetLocalDescription(offer_of(offer_created)),
                ),
                ActionView::Send(offer),
            ]
            &&& b1.1 == seq![
                ActionView::Engine(
                    EngineCommandView::SetRemoteDescription(offer_of(offer_committed)),
                ),
                ActionView::Engine(EngineCommandView::CreateAnswer),
                ActionView::Engine(
                    EngineCommandView::SetLocalDescription(answer_of(answer_created)),
                ),
                ActionView::Send(answer),
            ]
            &&& b1.0.state == NegotiationState::Stable
            &&& a2.1 == seq![
                ActionView::Engine(
                    EngineCommandView::SetRemoteDescription(answer_of(answer_committed)),
                ),
            ]
            &&& sends_nothing(a2.1)
            &&& a2.0.state == NegotiationState::Stable
        }),
{
    law_local_offer_is_sent(a, offer_created, offer_committed);
    law_offer_is_answered(b, offer_committed, answer_created, answer_committed);
    let a1 = run(
        a,
        seq![
            EventView::OfferRequested,
            EventView::EngineReplied(EngineReplyView::Description(offer_created)),
            EventView::EngineReplied(EngineReplyView::Description(offer_committed)),
        ],
    );
    law_answer_is_applied(a1.0, answer_committed);
}

/// A candidate message without `sdpMid` and `sdpMLineIndex` is no error: it
/// decodes to a candidate in which both are absent, and a free client hands
/// exactly that candidate to the engine, once.
pub proof fn law_bare_candidate_is_added(c: ClientView, line: Seq<char>, sdp: Option<Seq<char>>)
    requires
        c.wf(),
        c.state != NegotiationState::Closed,
        c.peer.in_flight is None,
    ensures
        ({
            let raw = RawMessageView {
                kind: Some("icecandidate"@),
                sdp,
                candidate: Some(
                    RawCandidateView {
                        candidate: Some(line),
                        sdp_mid: None,
                        sdp_m_line_index: None,
                    },
                ),
            };
            let candidate = IceCandidateView {
                candidate: line,
                sdp_mid: None,
                sdp_m_line_index: None,
            };
            &&& interpret_spec(raw) == Ok::<SignalingMessageView, DecodeError>(
                SignalingMessageView::IceCandidate(candidate),
            )
            &&& c.receive(SignalingMessageView::IceCandidate(candidate)) == (
                ClientView { peer: c.peer.begin(Operation::AddIceCandidate), ..c },
                seq![ActionView::Engine(EngineCommandView::AddIceCandidate(candidate))],
            )
        }),
{
    reveal_strlit("icecandidate");
    reveal_strlit("offer");
    reveal_strlit("answer");
    assert("icecandidate"@.len() == 12);
    assert("offer"@.len() == 5);
    assert("answer"@.len() == 6);
}

/// A payload that is not JSON reaches the application unchanged: a client
/// that is not closed answers it with the single action of delivering the
/// very same text, and stays as it was.
pub proof fn law_non_json_passes_through(c: ClientView, text: Seq<char>)
    requires
        c.state != NegotiationState::Closed,
    ensures
        json_document(text) is None ==> classify_spec(text) == Some(
            SignalingMessageView::Opaque(text),
        ),
        json_document(text) is None ==> c.dispatch(classify_spec(text)) == (
            c,
            seq![ActionView::Deliver(text)],
        ),
{
}

/// A payload of an unrecognized kind changes nothing and sends nothing.
///
/// A JSON payload whose `type` is a string other than `offer`, `answer` and
/// `icecandidate` is classified as a payload to ignore. The client is the same
/// afterwards, and the only action, if any, is the report of the fact.
pub proof fn law_unrecognized_kind_is_ignored(c: ClientView, text: Seq<char>, raw: RawMessageView)
    requires
        raw.kind matches Some(kind) && kind != "offer"@ && kind != "answer"@ && kind
            != "icecandidate"@,
    ensures
        interpret_spec(raw) == Err::<SignalingMessageView, DecodeError>(
            DecodeError::UnrecognizedKind,
        ),
        classify_outcome_spec(text, interpret_spec(raw)) is None,
        c.dispatch(None).0 == c,
        c.dispatch(None).1 == Seq::<ActionView>::empty() || c.dispatch(None).1 == seq![
            ActionView::Report(Fault::UnrecognizedKind),
        ],
        sends_nothing(c.dispatch(None).1),
{
}

/// A description is sent only after the engine has committed it.
///
/// Whenever an event makes the client send an offer or an answer, the
/// description in that message is the engine's committed local description.
pub proof fn law_sent_description_is_committed(c: ClientView, event: EventView, i: int)
    requires
        0 <= i < c.step(event).1.len(),
    ensures
        c.step(event).1[i] matches ActionView::Send(SignalingMessageView::Offer(d)) ==> c.step(
            event,
        ).0.peer.local == Some(d),
        c.step(event).1[i] matches ActionView::Send(SignalingMessageView::Answer(d)) ==> c.step(
            event,
        ).0.peer.local == Some(d),
{
}

/// The engine works on one operation at a time.
///
/// An event asks the engine for at most one operation. It does so only when
/// the engine is free or has just resolved the operation before, and the
/// operation asked for is the one that the client then knows to be under way.
pub proof fn law_one_operation_at_a_time(c: ClientView, event: EventView, i: int, j: int)
    requires
        0 <= i < c.step(event).1.len(),
        0 <= j < c.step(event).1.len(),
        c.step(event).1[i] is Engine,
    ensures
        c.step(event).1[j] is Engine ==> i == j,
        c.peer.in_flight is None || event is EngineReplied,
        c.step(event).0.peer.in_flight == Some(c.step(event).1[i]->Engine_0.operation()),
{
}

/// A closed client accepts nothing more: every event leaves it closed and
/// calls for no action.
pub proof fn law_closed_is_terminal(c: ClientView, event: EventView)
    requires
        c.wf(),
        c.state == NegotiationState::Closed,
    ensures
        c.step(event).0.state == NegotiationState::Closed,
        c.step(event).1 == Seq::<ActionView>::empty(),
{
    assert(c.step(event).1 =~= Seq::<ActionView>::empty());
}

/// A refusal by the engine ends only the chain it belongs to: it is
/// reported, the negotiation state stays as it was, and the client is not
/// closed.
pub proof fn law_refusal_ends_only_its_chain(c: ClientView)
    requires
        c.wf(),
        c.peer.in_flight is Some,
    ensures
        ({
            let after = c.reply(EngineReplyView::Rejected);
            &&& after.0.state == c.state
            &&& after.0.state != NegotiationState::Closed
            &&& after.1.len() >= 1
            &&& after.1[0] is Report
            &&& sends_nothing(after.1)
        }),
{
}

/// The job that a negotiation message from the peer becomes.
pub open spec fn job_of(m: SignalingMessageView) -> JobView
    recommends
        !(m is Opaque),
{
    match m {
        SignalingMessageView::Offer(d) => JobView::RemoteOffer(d.sdp),
        SignalingMessageView::Answer(d) => JobView::RemoteAnswer(d.sdp),
        SignalingMessageView::IceCandidate(k) => JobView::RemoteCandidate(k),
        SignalingMessageView::Opaque(_) => JobView::LocalOffer,
    }
}

/// Whether the engine's reply to `op` ends the chain that `op` belongs to.
pub open spec fn ends_chain(op: Operation, reply: EngineReplyView) -> bool {
    match resolve_spec(op, reply) {
        Ok(CompletionView::Created(_)) => false,
        Ok(CompletionView::RemoteApplied(SdpKind::Offer)) => false,
        _ => true,
    }
}

/// Chains do not interleave.
///
/// While the engine is busy, a negotiation message from the peer calls for
/// no action: its job goes to the end of the backlog and nothing else
/// changes. On a free client the same message begins its job at once, with
/// the job's first engine operation as the only action.
pub proof fn law_busy_client_queues(c: ClientView, m: SignalingMessageView)
    requires
        c.wf(),
        c.state != NegotiationState::Closed,
        !(m is Opaque),
    ensures
        c.peer.in_flight is Some ==> c.receive(m) == (
            ClientView { backlog: c.backlog.push(job_of(m)), ..c },
            Seq::<ActionView>::empty(),
        ),
        c.peer.in_flight is None ==> c.receive(m) == (
            ClientView { peer: c.peer.begin(job_of(m).first_command().operation()), ..c },
            seq![ActionView::Engine(job_of(m).first_command())],
        ),
{
}

/// Waiting jobs begin in turn.
///
/// When the engine's reply ends a chain while jobs wait, the oldest of them
/// begins: its first engine operation is the last action called for and is
/// then under way, and the backlog has lost exactly that job.
pub proof fn law_oldest_job_begins(c: ClientView, reply: EngineReplyView)
    requires
        c.wf(),
        c.peer.in_flight matches Some(op) && ends_chain(op, reply),
        c.backlog.len() > 0,
    ensures
        ({
            let after = c.reply(reply);
            &&& after.1.len() >= 1
            &&& after.1.last() == ActionView::Engine(c.backlog[0].first_command())
            &&& after.0.peer.in_flight == Some(c.backlog[0].first_command().operation())
            &&& after.0.backlog == c.backlog.drop_first()
        }),
{
}

/// Once the engine works on a peer's offer, the offer is answered.
///
/// Take a client whose engine is applying a peer's offer, however the job
/// came to begin. If the engine applies it, creates an answer with text
/// `created` and commits it with text `committed`, then the actions are:
/// create an answer, commit the created answer, send the answer as
/// committed, and after that only what begins the next waiting job.
/// Each of the three engine operations is asked for once.
pub proof fn law_applied_offer_is_answered(c: ClientView, created: Seq<char>, committed: Seq<char>)
    requires
        c.wf(),
        c.peer.in_flight == Some(Operation::SetRemoteDescription(SdpKind::Offer)),
    ensures
        ({
            let end = run(
                c,
                seq![
                    EventView::EngineReplied(EngineReplyView::Done),
                    EventView::EngineReplied(EngineReplyView::Description(created)),
                    EventView::EngineReplied(EngineReplyView::Description(committed)),
                ],
            );
            let settled = ClientView {
                peer: ConnectionView {
                    in_flight: None,
                    local: Some(answer_of(committed)),
                    ..c.peer
                },
                state: NegotiationState::Stable,
                backlog: c.backlog,
            };
            &&& end.0 == settled.advance().0
            &&& end.1 == seq![
                ActionView::Engine(EngineCommandView::CreateAnswer),
                ActionView::Engine(EngineCommandView::SetLocalDescription(answer_of(created))),
                ActionView::Send(SignalingMessageView::Answer(answer_of(committed))),
            ] + settled.advance().1
            &&& end.0.state == NegotiationState::Stable
        }),
{
    let e2 = EventView::EngineReplied(EngineReplyView::Done);
    let e3 = EventView::EngineReplied(EngineReplyView::Description(created));
    let e4 = EventView::EngineReplied(EngineReplyView::Description(committed));
    let c2 = c.step(e2).0;
    let c3 = c2.step(e3).0;
    let c4 = c3.step(e4).0;
    let none = Seq::<EventView>::empty();
    assert(seq![e2, e3, e4] =~= seq![e2] + (seq![e3] + (seq![e4] + none)));
    lemma_run_unfold(c, e2, seq![e3] + (seq![e4] + none));
    lemma_run_unfold(c2, e3, seq![e4] + none);
    lemma_run_unfold(c3, e4, none);
    lemma_run_empty(c4);
    let settled = ClientView {
        peer: ConnectionView {
            in_flight: None,
            local: Some(answer_of(committed)),
            ..c.peer
        },
        state: NegotiationState::Stable,
        backlog: c.backlog,
    };
    assert(run(c, seq![e2, e3, e4]).1 =~= seq![
        ActionView::Engine(EngineCommandView::CreateAnswer),
        ActionView::Engine(EngineCommandView::SetLocalDescription(answer_of(created))),
        ActionView::Send(SignalingMessageView::Answer(answer_of(committed))),
    ] + settled.advance().1);
}

/// Every state that a well-formed client can reach is well formed.
pub proof fn law_run_keeps_wf(c: ClientView, events: Seq<EventView>)
    requires
        c.wf(),
    ensures
        run(c, events).0.wf(),
    decreases events.len(),
{
    if events.len() > 0 {
        lemma_step_keeps_wf(c, events[0]);
        law_run_keeps_wf(c.step(events[0]).0, events.drop_first());
    }
}

} // verus!
