//! The negotiation coordinator of a signaling client.
//!
//! A [`WebSocketClient`] owns the negotiation state of one connection. It
//! holds no socket and no engine: each of its methods takes what happened
//! (a payload arrived, the engine resolved an operation, the application asked
//! for an offer) and returns the [`Action`]s that the caller has to perform,
//! in order.
//!
//! Work that touches the engine is serialized. A message that arrives while
//! the engine is busy waits in a first-in, first-out backlog, so two
//! negotiation chains never interleave.

use vstd::prelude::*;
use crate::message::{IceCandidate, IceCandidateView, SdpKind, SessionDescription};
use crate::message::{SessionDescriptionView, SignalingMessage, SignalingMessageView};
use crate::message::describing_spec;
use crate::webrtc_peer_connection::{Completion, CompletionView, ConnectionView, EngineCommand};
use crate::webrtc_peer_connection::{EngineCommandView, EngineError, EngineReply, EngineReplyView};
use crate::webrtc_peer_connection::{Operation, WebRTCConnection, resolve_spec};
use crate::wire::{classify, classify_spec, opt_message_view};

verus! {

/// Where a connection stands in its negotiation.
#[derive(Clone, Copy, Debug, PartialEq, Eq, Structural)]
pub enum NegotiationState {
    /// Nothing has been committed or applied yet.
    Idle,
    /// The local offer is committed; the peer's answer is awaited.
    HaveLocalOffer,
    /// The peer's offer is applied; the local answer is not committed yet.
    HaveRemoteOffer,
    /// Offer and answer are both in place.
    Stable,
    /// The channel failed or was closed. Nothing is accepted any more.
    Closed,
}

/// A condition that the client reports and does not act on.
#[derive(Clone, Copy, Debug, PartialEq, Eq, Structural)]
pub enum Fault {
    /// The engine refused a description; the chain it belonged to is over.
    DescriptionRejected,
    /// The engine refused a candidate.
    CandidateRejected,
    /// A payload named a kind of message that the protocol does not know.
    UnrecognizedKind,
    /// A local offer was asked for while another one is outstanding.
    OfferOutstanding,
}

/// The fault that stands for an engine error.
pub open spec fn fault_of(e: EngineError) -> Fault {
    match e {
        EngineError::DescriptionRejected => Fault::DescriptionRejected,
        EngineError::CandidateRejected => Fault::CandidateRejected,
    }
}

/// The transport was not open when a payload was to be sent.
#[derive(Clone, Copy, Debug, PartialEq, Eq, Structural)]
pub struct SendFailed;

/// Something the caller has to do for the client.
#[derive(Clone, Debug, PartialEq, Eq)]
pub enum Action {
    /// Perform this engine operation and report how the engine resolved it.
    Engine(EngineCommand),
    /// Send this message to the peer.
    Send(SignalingMessage),
    /// Hand this payload to the application, unchanged.
    Deliver(String),
    /// Report this fault to the error sink.
    Report(Fault),
}

/// The mathematical value of an [`Action`].
pub enum ActionView {
    Engine(EngineCommandView),
    Send(SignalingMessageView),
    Deliver(Seq<char>),
    Report(Fault),
}

impl View for Action {
    type V = ActionView;

    open spec fn view(&self) -> ActionView {
        match self {
            Action::Engine(c) => ActionView::Engine(c@),
            Action::Send(m) => ActionView::Send(m@),
            Action::Deliver(t) => ActionView::Deliver(t@),
            Action::Report(f) => ActionView::Report(*f),
        }
    }
}

/// The views of a sequence of actions.
pub open spec fn action_views(actions: Seq<Action>) -> Seq<ActionView> {
    actions.map_values(|a: Action| a@)
}

/// A piece of work for the engine: one negotiation chain, or one candidate.
#[derive(Clone, Debug, PartialEq, Eq)]
pub enum Job {
    /// Create a local offer, commit it and send it.
    LocalOffer,
    /// Apply the peer's offer with this SDP text, then answer it.
    RemoteOffer(String),
    /// Apply the peer's answer with this SDP text.
    RemoteAnswer(String),
    /// Hand the peer's candidate to the engine.
    RemoteCandidate(IceCandidate),
}

/// The mathematical value of a [`Job`].
pub enum JobView {
    LocalOffer,
    RemoteOffer(Seq<char>),
    RemoteAnswer(Seq<char>),
    RemoteCandidate(IceCandidateView),
}

impl View for Job {
    type V = JobView;

    open spec fn view(&self) -> JobView {
        match self {
            Job::LocalOffer => JobView::LocalOffer,
            Job::RemoteOffer(sdp) => JobView::RemoteOffer(sdp@),
            Job::RemoteAnswer(sdp) => JobView::RemoteAnswer(sdp@),
            Job::RemoteCandidate(c) => JobView::RemoteCandidate(c@),
        }
    }
}

/// The views of a sequence of jobs.
pub open spec fn job_views(jobs: Seq<Job>) -> Seq<JobView> {
    jobs.map_values(|j: Job| j@)
}

impl JobView {
    /// The engine operation that a job begins with.
    pub open spec fn first_command(self) -> EngineCommandView {
        match self {
            JobView::LocalOffer => EngineCommandView::CreateOffer,
            JobView::RemoteOffer(sdp) => EngineCommandView::SetRemoteDescription(
                SessionDescriptionView { kind: SdpKind::Offer, sdp },
            ),
            JobView::RemoteAnswer(sdp) => EngineCommandView::SetRemoteDescription(
                SessionDescriptionView { kind: SdpKind::Answer, sdp },
            ),
            JobView::RemoteCandidate(c) => EngineCommandView::AddIceCandidate(c),
        }
    }
}

/// Whether `op` belongs to a chain that sets up a local offer.
pub open spec fn offering(op: Option<Operation>) -> bool {
    op == Some(Operation::CreateOffer) || op == Some(
        Operation::SetLocalDescription(SdpKind::Offer),
    )
}

/// Whether a local offer waits in `backlog`.
pub open spec fn offer_waiting(backlog: Seq<JobView>) -> bool {
    exists|i: int| 0 <= i < backlog.len() && #[trigger] backlog[i] is LocalOffer
}

/// The mathematical value of a [`WebSocketClient`].
pub struct ClientView {
    /// The controller of the engine.
    pub peer: ConnectionView,
    /// Where the negotiation stands.
    pub state: NegotiationState,
    /// The jobs that wait for the engine, oldest first.
    pub backlog: Seq<JobView>,
}

impl ClientView {
    /// Whether a local offer is outstanding: committed and not yet answered,
    /// being set up, or waiting for the engine.
    pub open spec fn offer_outstanding(self) -> bool {
        self.state == NegotiationState::HaveLocalOffer || offering(self.peer.in_flight)
            || offer_waiting(self.backlog)
    }

    /// What holds of every client:
    /// jobs wait only while the engine is busy; a closed client has no
    /// operation under way and no backlog; and at most one local offer is
    /// outstanding.
    pub open spec fn wf(self) -> bool {
        &&& self.peer.in_flight is None ==> self.backlog.len() == 0
        &&& self.state == NegotiationState::Closed ==> self.peer.in_flight is None
        &&& forall|i: int, j: int|
            0 <= i < self.backlog.len() && 0 <= j < self.backlog.len()
                && #[trigger] self.backlog[i] is LocalOffer
                && #[trigger] self.backlog[j] is LocalOffer ==> i == j
        &&& offering(self.peer.in_flight) ==> !offer_waiting(self.backlog)
        &&& self.state == NegotiationState::HaveLocalOffer ==> !offering(self.peer.in_flight)
            && !offer_waiting(self.backlog)
    }

    /// Lets the engine begin `job`, if it is free.
    pub open spec fn start(self, job: JobView) -> (ClientView, Seq<ActionView>) {
        (
            ClientView { peer: self.peer.begin(job.first_command().operation()), ..self },
            if self.peer.in_flight is None {
                seq![ActionView::Engine(job.first_command())]
            } else {
                Seq::<ActionView>::empty()
            },
        )
    }

    /// Takes a new job: a closed client drops it, a busy one puts it at the
    /// end of the backlog, a free one begins it at once.
    pub open spec fn submit(self, job: JobView) -> (ClientView, Seq<ActionView>) {
        if self.state == NegotiationState::Closed {
            (self, Seq::<ActionView>::empty())
        } else if self.peer.in_flight is Some {
            (ClientView { backlog: self.backlog.push(job), ..self }, Seq::<ActionView>::empty())
        } else {
            self.start(job)
        }
    }

    /// Begins the oldest waiting job, if there is one.
    pub open spec fn advance(self) -> (ClientView, Seq<ActionView>) {
        if self.backlog.len() == 0 {
            (self, Seq::<ActionView>::empty())
        } else {
            (ClientView { backlog: self.backlog.drop_first(), ..self }).start(self.backlog[0])
        }
    }

    /// Handles a message from the peer.
    ///
    /// An opaque payload goes to the application unchanged. An offer, an
    /// answer and a candidate each become a job. A closed client does
    /// nothing.
    pub open spec fn receive(self, m: SignalingMessageView) -> (ClientView, Seq<ActionView>) {
        if self.state == NegotiationState::Closed {
            (self, Seq::<ActionView>::empty())
        } else {
            match m {
                SignalingMessageView::Offer(d) => self.submit(JobView::RemoteOffer(d.sdp)),
                SignalingMessageView::Answer(d) => self.submit(JobView::RemoteAnswer(d.sdp)),
                SignalingMessageView::IceCandidate(c) => self.submit(JobView::RemoteCandidate(c)),
                SignalingMessageView::Opaque(t) => (self, seq![ActionView::Deliver(t)]),
            }
        }
    }

    /// Handles a classified payload: a message is received; a payload of an
    /// unrecognized kind is reported and changes nothing.
    pub open spec fn dispatch(self, m: Option<SignalingMessageView>) -> (
        ClientView,
        Seq<ActionView>,
    ) {
        match m {
            Some(m) => self.receive(m),
            None => if self.state == NegotiationState::Closed {
                (self, Seq::<ActionView>::empty())
            } else {
                (self, seq![ActionView::Report(Fault::UnrecognizedKind)])
            },
        }
    }

    /// Handles the application's request for a local offer: refused with a
    /// report while another local offer is outstanding, a job otherwise.
    pub open spec fn offer(self) -> (ClientView, Seq<ActionView>) {
        if self.state == NegotiationState::Closed {
            (self, Seq::<ActionView>::empty())
        } else if self.offer_outstanding() {
            (self, seq![ActionView::Report(Fault::OfferOutstanding)])
        } else {
            self.submit(JobView::LocalOffer)
        }
    }

    /// Handles the engine's reply to the operation under way.
    ///
    /// A created description is committed next. A committed description is
    /// sent, as the engine committed it, and ends its chain. An applied offer
    /// is answered next; an applied answer and an added candidate end their
    /// job. A refusal is reported and ends the chain with the state as it
    /// was. When a chain or job ends, the oldest waiting job begins.
    pub open spec fn reply(self, reply: EngineReplyView) -> (ClientView, Seq<ActionView>) {
        match self.peer.in_flight {
            None => (self, Seq::<ActionView>::empty()),
            Some(op) => {
                let peer = self.peer.resolve(reply);
                match resolve_spec(op, reply) {
                    Ok(CompletionView::Created(d)) => (
                        ClientView {
                            peer: peer.begin(Operation::SetLocalDescription(d.kind)),
                            ..self
                        },
                        seq![ActionView::Engine(EngineCommandView::SetLocalDescription(d))],
                    ),
                    Ok(CompletionView::LocalCommitted(d)) => {
                        let next = (ClientView {
                            peer,
                            state: match d.kind {
                                SdpKind::Offer => NegotiationState::HaveLocalOffer,
                                SdpKind::Answer => NegotiationState::Stable,
                            },
                            ..self
                        }).advance();
                        (next.0, seq![ActionView::Send(describing_spec(d))] + next.1)
                    },
                    Ok(CompletionView::RemoteApplied(SdpKind::Offer)) => (
                        ClientView {
                            peer: peer.begin(Operation::CreateAnswer),
                            state: NegotiationState::HaveRemoteOffer,
                            ..self
                        },
                        seq![ActionView::Engine(EngineCommandView::CreateAnswer)],
                    ),
                    Ok(CompletionView::RemoteApplied(SdpKind::Answer)) => (ClientView {
                        peer,
                        state: NegotiationState::Stable,
                        ..self
                    }).advance(),
                    Ok(CompletionView::CandidateAdded) => (ClientView { peer, ..self }).advance(),
                    Err(e) => {
                        let next = (ClientView { peer, ..self }).advance();
                        (next.0, seq![ActionView::Report(fault_of(e))] + next.1)
                    },
                }
            },
        }
    }

    /// Handles a candidate that the local engine discovered: it is sent to
    /// the peer at once, unless the client is closed.
    pub open spec fn local_candidate(self, c: IceCandidateView) -> Seq<ActionView> {
        if self.state == NegotiationState::Closed {
            Seq::<ActionView>::empty()
        } else {
            seq![ActionView::Send(SignalingMessageView::IceCandidate(c))]
        }
    }

    /// The client after the channel failed or was closed: the operation
    /// under way is given up and the backlog dropped.
    pub open spec fn close(self) -> ClientView {
        ClientView {
            peer: self.peer.abandon(),
            state: NegotiationState::Closed,
            backlog: Seq::<JobView>::empty(),
        }
    }
}

/// The negotiation coordinator of one connection.
#[derive(Debug)]
pub struct WebSocketClient {
    peerconnection: WebRTCConnection,
    state: NegotiationState,
    backlog: Vec<Job>,
}

impl View for WebSocketClient {
    type V = ClientView;

    closed spec fn view(&self) -> ClientView {
        ClientView {
            peer: self.peerconnection@,
            state: self.state,
            backlog: job_views(self.backlog@),
        }
    }
}

impl WebSocketClient {
    /// A client for a fresh connection whose engine is configured with
    /// `ice_server`. It is idle, and nothing waits.
    pub fn new(ice_server: String) -> (client: WebSocketClient)
        ensures
            client@ == (ClientView {
                peer: ConnectionView { ice_server: ice_server@, in_flight: None, local: None },
                state: NegotiationState::Idle,
                backlog: Seq::<JobView>::empty(),
            }),
            client@.wf(),
    {
        let client = WebSocketClient {
            peerconnection: WebRTCConnection::new(ice_server),
            state: NegotiationState::Idle,
            backlog: Vec::new(),
        };
        assert(job_views(client.backlog@) =~= Seq::<JobView>::empty());
        client
    }

    /// Where the negotiation stands.
    pub fn state(&self) -> (s: NegotiationState)
        ensures
            s == self@.state,
    {
        self.state
    }

    /// The controller of the engine.
    pub fn peerconnection(&self) -> (peer: &WebRTCConnection)
        ensures
            peer@ == self@.peer,
    {
        &self.peerconnection
    }

    /// How many jobs wait for the engine.
    pub fn backlog_len(&self) -> (n: usize)
        ensures
            n == self@.backlog.len(),
    {
        self.backlog.len()
    }

    /// Takes note that the channel failed. The client is closed from now on.
    pub fn on_error(&mut self)
        ensures
            final(self)@ == old(self)@.close(),
            final(self)@.wf(),
    {
        self.close()
    }

    /// Takes note that the channel was closed. The client is closed from now
    /// on: the operation under way is given up and the backlog dropped.
    pub fn close(&mut self)
        ensures
            final(self)@ == old(self)@.close(),
            final(self)@.wf(),
    {
        self.peerconnection.abandon();
        self.state = NegotiationState::Closed;
        self.backlog.clear();
        assert(job_views(self.backlog@) =~= Seq::<JobView>::empty());
    }

    /// Takes a candidate that the local engine discovered. It is sent to the
    /// peer at once, unless the client is closed.
    pub fn on_local_candidate(&self, candidate: IceCandidate) -> (actions: Vec<Action>)
        ensures
            action_views(actions@) == self@.local_candidate(candidate@),
    {
        let mut actions = Vec::new();
        if self.state != NegotiationState::Closed {
            actions.push(Action::Send(SignalingMessage::IceCandidate(candidate)));
        }
        assert(action_views(actions@) =~= self@.local_candidate(candidate@));
        actions
    }

    /// Takes a payload that the application wants to send. It goes out as it
    /// is, unless the client is closed.
    pub fn send_message(&self, message: String) -> (r: Result<Action, SendFailed>)
        ensures
            match r {
                Ok(action) => self@.state != NegotiationState::Closed && action@
                    == ActionView::Send(SignalingMessageView::Opaque(message@)),
                Err(_) => self@.state == NegotiationState::Closed,
            },
    {
        if self.state == NegotiationState::Closed {
            Err(SendFailed)
        } else {
            Ok(Action::Send(SignalingMessage::Opaque(message)))
        }
    }
}

impl WebSocketClient {
    /// Lets the engine begin `job`, if it is free, and notes the command.
    fn start(&mut self, job: Job, actions: &mut Vec<Action>)
        ensures
            final(self)@ == old(self)@.start(job@).0,
            action_views(final(actions)@) == action_views(old(actions)@) + old(self)@.start(
                job@,
            ).1,
    {
        let started = match job {
            Job::LocalOffer => self.peerconnection.create_offer(),
            Job::RemoteOffer(sdp) => self.peerconnection.set_remote_description(
                SessionDescription::offer(sdp),
            ),
            Job::RemoteAnswer(sdp) => self.peerconnection.set_remote_description(
                SessionDescription::answer(sdp),
            ),
            Job::RemoteCandidate(c) => self.peerconnection.add_ice_candidate(c),
        };
        match started {
            Some(command) => {
                actions.push(Action::Engine(command));
            },
            None => {},
        }
        assert(action_views(actions@) =~= action_views(old(actions)@) + old(self)@.start(job@).1);
    }

    /// Takes a new job: drops it when closed, queues it when the engine is
    /// busy, begins it otherwise.
    fn submit(&mut self, job: Job, actions: &mut Vec<Action>)
        ensures
            final(self)@ == old(self)@.submit(job@).0,
            action_views(final(actions)@) == action_views(old(actions)@) + old(self)@.submit(
                job@,
            ).1,
    {
        if self.state == NegotiationState::Closed {
            assert(action_views(actions@) =~= action_views(old(actions)@) + old(self)@.submit(
                job@,
            ).1);
        } else if self.peerconnection.in_flight().is_some() {
            self.backlog.push(job);
            assert(job_views(self.backlog@) =~= job_views(old(self).backlog@).push(job@));
            assert(action_views(actions@) =~= action_views(old(actions)@) + old(self)@.submit(
                job@,
            ).1);
        } else {
            self.start(job, actions);
        }
    }

    /// Begins the oldest waiting job, if there is one.
    fn advance(&mut self, actions: &mut Vec<Action>)
        ensures
            final(self)@ == old(self)@.advance().0,
            action_views(final(actions)@) == action_views(old(actions)@) + old(self)@.advance().1,
    {
        if self.backlog.is_empty() {
            assert(job_views(self.backlog@).len() == 0);
            assert(action_views(actions@) =~= action_views(old(actions)@) + old(self)@.advance().1);
        } else {
            let job = self.backlog.remove(0);
            assert(job_views(self.backlog@) =~= job_views(old(self).backlog@).drop_first());
            assert(job@ == job_views(old(self).backlog@)[0]);
            self.start(job, actions);
        }
    }

    /// Whether a local offer waits in the backlog.
    fn offer_in_backlog(&self) -> (waiting: bool)
        ensures
            waiting == offer_waiting(self@.backlog),
    {
        let mut i: usize = 0;
        while i < self.backlog.len()
            invariant
                i <= self.backlog.len(),
                forall|k: int| 0 <= k < i ==> !(#[trigger] job_views(self.backlog@)[k] is LocalOffer),
            decreases self.backlog.len() - i,
        {
            match &self.backlog[i] {
                Job::LocalOffer => {
                    assert(job_views(self.backlog@)[i as int] is LocalOffer);
                    return true;
                },
                _ => {},
            }
            i += 1;
        }
        false
    }

    /// Whether a local offer is outstanding.
    pub fn offer_outstanding(&self) -> (outstanding: bool)
        ensures
            outstanding == self@.offer_outstanding(),
    {
        let setting_up = match self.peerconnection.in_flight() {
            Some(Operation::CreateOffer) => true,
            Some(Operation::SetLocalDescription(SdpKind::Offer)) => true,
            _ => false,
        };
        self.state == NegotiationState::HaveLocalOffer || setting_up || self.offer_in_backlog()
    }

    /// Handles a message from the peer and returns what is to be done.
    pub fn receive(&mut self, message: SignalingMessage) -> (actions: Vec<Action>)
        ensures
            final(self)@ == old(self)@.receive(message@).0,
            action_views(actions@) == old(self)@.receive(message@).1,
            old(self)@.wf() ==> final(self)@.wf(),
    {
        let mut actions = Vec::new();
        if self.state != NegotiationState::Closed {
            match message {
                SignalingMessage::Offer(d) => self.submit(Job::RemoteOffer(d.sdp), &mut actions),
                SignalingMessage::Answer(d) => self.submit(Job::RemoteAnswer(d.sdp), &mut actions),
                SignalingMessage::IceCandidate(c) => self.submit(
                    Job::RemoteCandidate(c),
                    &mut actions,
                ),
                SignalingMessage::Opaque(t) => {
                    actions.push(Action::Deliver(t));
                },
            }
        }
        proof {
            assert(action_views(actions@) =~= old(self)@.receive(message@).1);
            if old(self)@.wf() {
                lemma_receive_keeps_wf(old(self)@, message@);
            }
        }
        actions
    }

    /// Handles a classified payload: `Some` of a message to receive, or `None`
    /// for a payload of an unrecognized kind.
    pub fn dispatch(&mut self, message: Option<SignalingMessage>) -> (actions: Vec<Action>)
        ensures
            final(self)@ == old(self)@.dispatch(opt_message_view(message)).0,
            action_views(actions@) == old(self)@.dispatch(opt_message_view(message)).1,
            old(self)@.wf() ==> final(self)@.wf(),
    {
        match message {
            Some(m) => self.receive(m),
            None => {
                let mut actions = Vec::new();
                if self.state != NegotiationState::Closed {
                    actions.push(Action::Report(Fault::UnrecognizedKind));
                }
                assert(action_views(actions@) =~= old(self)@.dispatch(None).1);
                actions
            },
        }
    }

    /// Handles one payload from the channel and returns what is to be done.
    ///
    /// A negotiation message drives the engine. Every payload that is not
    /// one, be it no JSON at all or JSON that does not fit the schema, goes
    /// to the application unchanged. A payload of an unrecognized kind is
    /// reported and changes nothing.
    pub fn on_message(&mut self, text: String) -> (actions: Vec<Action>)
        ensures
            final(self)@ == old(self)@.dispatch(classify_spec(text@)).0,
            action_views(actions@) == old(self)@.dispatch(classify_spec(text@)).1,
            old(self)@.wf() ==> final(self)@.wf(),
    {
        self.dispatch(classify(text))
    }

    /// Handles the application's request for a local offer.
    pub fn offer(&mut self) -> (actions: Vec<Action>)
        ensures
            final(self)@ == old(self)@.offer().0,
            action_views(actions@) == old(self)@.offer().1,
            old(self)@.wf() ==> final(self)@.wf(),
    {
        let mut actions = Vec::new();
        if self.state != NegotiationState::Closed {
            if self.offer_outstanding() {
                actions.push(Action::Report(Fault::OfferOutstanding));
            } else {
                self.submit(Job::LocalOffer, &mut actions);
            }
        }
        proof {
            assert(action_views(actions@) =~= old(self)@.offer().1);
            if old(self)@.wf() {
                lemma_offer_keeps_wf(old(self)@);
            }
        }
        actions
    }

    /// Handles the engine's reply to the operation under way and returns
    /// what is to be done next.
    pub fn on_engine_reply(&mut self, reply: EngineReply) -> (actions: Vec<Action>)
        ensures
            final(self)@ == old(self)@.reply(reply@).0,
            action_views(actions@) == old(self)@.reply(reply@).1,
            old(self)@.wf() ==> final(self)@.wf(),
    {
        let mut actions = Vec::new();
        match self.peerconnection.resolve(reply) {
            None => {},
            Some(Ok(Completion::Created(d))) => {
                match self.peerconnection.set_local_description(d) {
                    Some(command) => {
                        actions.push(Action::Engine(command));
                    },
                    None => {},
                }
            },
            Some(Ok(Completion::LocalCommitted(d))) => {
                self.state = match d.kind {
                    SdpKind::Offer => NegotiationState::HaveLocalOffer,
                    SdpKind::Answer => NegotiationState::Stable,
                };
                actions.push(Action::Send(SignalingMessage::describing(d)));
                self.advance(&mut actions);
            },
            Some(Ok(Completion::RemoteApplied(SdpKind::Offer))) => {
                self.state = NegotiationState::HaveRemoteOffer;
                match self.peerconnection.create_answer() {
                    Some(command) => {
                        actions.push(Action::Engine(command));
                    },
                    None => {},
                }
            },
            Some(Ok(Completion::RemoteApplied(SdpKind::Answer))) => {
                self.state = NegotiationState::Stable;
                self.advance(&mut actions);
            },
            Some(Ok(Completion::CandidateAdded)) => {
                self.advance(&mut actions);
            },
            Some(Err(e)) => {
                let fault = match e {
                    EngineError::DescriptionRejected => Fault::DescriptionRejected,
                    EngineError::CandidateRejected => Fault::CandidateRejected,
                };
                actions.push(Action::Report(fault));
                self.advance(&mut actions);
            },
        }
        proof {
            assert(action_views(actions@) =~= old(self)@.reply(reply@).1);
            if old(self)@.wf() {
                lemma_reply_keeps_wf(old(self)@, reply@);
            }
        }
        actions
    }
}

/// Receiving a message keeps a client well formed.
pub proof fn lemma_receive_keeps_wf(c: ClientView, m: SignalingMessageView)
    requires
        c.wf(),
    ensures
        c.receive(m).0.wf(),
{
    let after = c.receive(m).0;
    if c.state != NegotiationState::Closed && !(m is Opaque) && c.peer.in_flight is Some {
        let job = match m {
            SignalingMessageView::Offer(d) => JobView::RemoteOffer(d.sdp),
            SignalingMessageView::Answer(d) => JobView::RemoteAnswer(d.sdp),
            SignalingMessageView::IceCandidate(k) => JobView::RemoteCandidate(k),
            SignalingMessageView::Opaque(t) => JobView::LocalOffer,
        };
        assert(after.backlog == c.backlog.push(job));
        assert(!offer_waiting(after.backlog) || offer_waiting(c.backlog)) by {
            if offer_waiting(after.backlog) {
                let i = choose|i: int|
                    0 <= i < after.backlog.len() && #[trigger] after.backlog[i] is LocalOffer;
                assert(c.backlog[i] is LocalOffer);
            }
        }
    }
}

/// A request for a local offer keeps a client well formed.
pub proof fn lemma_offer_keeps_wf(c: ClientView)
    requires
        c.wf(),
    ensures
        c.offer().0.wf(),
{
    let after = c.offer().0;
    if c.state != NegotiationState::Closed && !c.offer_outstanding() && c.peer.in_flight is Some {
        assert(after.backlog == c.backlog.push(JobView::LocalOffer));
        assert forall|i: int, j: int|
            0 <= i < after.backlog.len() && 0 <= j < after.backlog.len()
                && #[trigger] after.backlog[i] is LocalOffer
                && #[trigger] after.backlog[j] is LocalOffer implies i == j by {
            if i < c.backlog.len() {
                assert(c.backlog[i] is LocalOffer);
            }
            if j < c.backlog.len() {
                assert(c.backlog[j] is LocalOffer);
            }
        }
    }
}

/// Beginning the oldest waiting job keeps the invariant, for a client whose
/// engine has just become free.
proof fn lemma_advance_keeps_wf(c: ClientView)
    requires
        c.peer.in_flight is None,
        c.state != NegotiationState::Closed,
        forall|i: int, j: int|
            0 <= i < c.backlog.len() && 0 <= j < c.backlog.len() && #[trigger] c.backlog[i]
                is LocalOffer && #[trigger] c.backlog[j] is LocalOffer ==> i == j,
        c.state == NegotiationState::HaveLocalOffer ==> !offer_waiting(c.backlog),
    ensures
        c.advance().0.wf(),
{
    if c.backlog.len() > 0 {
        let rest = c.backlog.drop_first();
        let after = c.advance().0;
        assert(after.backlog == rest);
        assert forall|i: int| 0 <= i < rest.len() implies #[trigger] rest[i] == c.backlog[i + 1] by {}
        assert forall|i: int, j: int|
            0 <= i < rest.len() && 0 <= j < rest.len() && #[trigger] rest[i] is LocalOffer
                && #[trigger] rest[j] is LocalOffer implies i == j by {
            assert(c.backlog[i + 1] is LocalOffer);
            assert(c.backlog[j + 1] is LocalOffer);
        }
        if c.backlog[0] is LocalOffer {
            assert(!offer_waiting(rest)) by {
                if offer_waiting(rest) {
                    let i = choose|i: int| 0 <= i < rest.len() && #[trigger] rest[i] is LocalOffer;
                    assert(c.backlog[i + 1] is LocalOffer);
                    assert(c.backlog[0] is LocalOffer);
                }
            }
        }
        if c.state == NegotiationState::HaveLocalOffer {
            assert(!offer_waiting(rest)) by {
                if offer_waiting(rest) {
                    let i = choose|i: int| 0 <= i < rest.len() && #[trigger] rest[i] is LocalOffer;
                    assert(c.backlog[i + 1] is LocalOffer);
                }
            }
        }
    }
}

/// The engine's reply keeps a client well formed.
pub proof fn lemma_reply_keeps_wf(c: ClientView, reply: EngineReplyView)
    requires
        c.wf(),
    ensures
        c.reply(reply).0.wf(),
{
    match c.peer.in_flight {
        None => {},
        Some(op) => {
            let peer = c.peer.resolve(reply);
            match resolve_spec(op, reply) {
                Ok(CompletionView::Created(d)) => {},
                Ok(CompletionView::LocalCommitted(d)) => {
                    let mid = ClientView {
                        peer,
                        state: match d.kind {
                            SdpKind::Offer => NegotiationState::HaveLocalOffer,
                            SdpKind::Answer => NegotiationState::Stable,
                        },
                        ..c
                    };
                    lemma_advance_keeps_wf(mid);
                },
                Ok(CompletionView::RemoteApplied(SdpKind::Offer)) => {},
                Ok(CompletionView::RemoteApplied(SdpKind::Answer)) => {
                    lemma_advance_keeps_wf(
                        ClientView { peer, state: NegotiationState::Stable, ..c },
                    );
                },
                Ok(CompletionView::CandidateAdded) => {
                    lemma_advance_keeps_wf(ClientView { peer, ..c });
                },
                Err(e) => {
                    lemma_advance_keeps_wf(ClientView { peer, ..c });
                },
            }
        },
    }
}

/// Something that happened to a connection.
#[derive(Clone, Debug, PartialEq, Eq)]
pub enum Event {
    /// A message arrived from the peer.
    Received(SignalingMessage),
    /// The application asked for a local offer.
    OfferRequested,
    /// The engine resolved the operation under way.
    EngineReplied(EngineReply),
    /// The local engine discovered a candidate.
    CandidateFound(IceCandidate),
    /// The channel reported an error.
    ChannelFailed,
    /// The channel was closed.
    ChannelClosed,
}

/// The mathematical value of an [`Event`].
pub enum EventView {
    Received(SignalingMessageView),
    OfferRequested,
    EngineReplied(EngineReplyView),
    CandidateFound(IceCandidateView),
    ChannelFailed,
    ChannelClosed,
}

impl View for Event {
    type V = EventView;

    open spec fn view(&self) -> EventView {
        match self {
            Event::Received(m) => EventView::Received(m@),
            Event::OfferRequested => EventView::OfferRequested,
            Event::EngineReplied(r) => EventView::EngineReplied(r@),
            Event::CandidateFound(c) => EventView::CandidateFound(c@),
            Event::ChannelFailed => EventView::ChannelFailed,
            Event::ChannelClosed => EventView::ChannelClosed,
        }
    }
}

impl ClientView {
    /// The client after an event, and the actions that the event calls for.
    pub open spec fn step(self, event: EventView) -> (ClientView, Seq<ActionView>) {
        match event {
            EventView::Received(m) => self.receive(m),
            EventView::OfferRequested => self.offer(),
            EventView::EngineReplied(r) => self.reply(r),
            EventView::CandidateFound(c) => (self, self.local_candidate(c)),
            EventView::ChannelFailed => (self.close(), Seq::<ActionView>::empty()),
            EventView::ChannelClosed => (self.close(), Seq::<ActionView>::empty()),
        }
    }
}

impl WebSocketClient {
    /// Handles one event and returns the actions to perform, in order.
    pub fn handle(&mut self, event: Event) -> (actions: Vec<Action>)
        ensures
            final(self)@ == old(self)@.step(event@).0,
            action_views(actions@) == old(self)@.step(event@).1,
            old(self)@.wf() ==> final(self)@.wf(),
    {
        match event {
            Event::Received(m) => self.receive(m),
            Event::OfferRequested => self.offer(),
            Event::EngineReplied(r) => self.on_engine_reply(r),
            Event::CandidateFound(c) => self.on_local_candidate(c),
            Event::ChannelFailed => {
                self.on_error();
                let actions = Vec::new();
                assert(action_views(actions@) =~= Seq::<ActionView>::empty());
                actions
            },
            Event::ChannelClosed => {
                self.close();
                let actions = Vec::new();
                assert(action_views(actions@) =~= Seq::<ActionView>::empty());
                actions
            },
        }
    }
}

/// An event keeps a client well formed.
pub proof fn lemma_step_keeps_wf(c: ClientView, event: EventView)
    requires
        c.wf(),
    ensures
        c.step(event).0.wf(),
{
    match event {
        EventView::Received(m) => lemma_receive_keeps_wf(c, m),
        EventView::OfferRequested => lemma_offer_keeps_wf(c),
        EventView::EngineReplied(r) => lemma_reply_keeps_wf(c, r),
        _ => {},
    }
}

} // verus!
