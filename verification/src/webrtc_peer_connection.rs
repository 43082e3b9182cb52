//! The controller of one peer-connection engine.
//!
//! The engine itself lives outside this crate and works asynchronously. The
//! controller decides which engine operation may start, remembers the one that
//! is under way, and says what its completion means. Its caller performs the
//! operation and reports how the engine resolved it.

use vstd::prelude::*;
use crate::message::{IceCandidate, IceCandidateView, SdpKind, SessionDescription};
use crate::message::SessionDescriptionView;

verus! {

/// Why the engine refused an operation.
#[derive(Clone, Copy, Debug, PartialEq, Eq, Structural)]
pub enum EngineError {
    /// The engine refused to create, commit or apply a description: the SDP
    /// is invalid, or the operation does not fit the engine's state.
    DescriptionRejected,
    /// The engine refused a candidate.
    CandidateRejected,
}

/// An engine operation, as far as the controller has to remember it while
/// the engine works on it.
#[derive(Clone, Copy, Debug, PartialEq, Eq, Structural)]
pub enum Operation {
    CreateOffer,
    CreateAnswer,
    SetLocalDescription(SdpKind),
    SetRemoteDescription(SdpKind),
    AddIceCandidate,
}

/// A request to the engine, with its argument. The caller performs it.
#[derive(Clone, Debug, PartialEq, Eq)]
pub enum EngineCommand {
    CreateOffer,
    CreateAnswer,
    SetLocalDescription(SessionDescription),
    SetRemoteDescription(SessionDescription),
    AddIceCandidate(IceCandidate),
}

/// The mathematical value of an [`EngineCommand`].
pub enum EngineCommandView {
    CreateOffer,
    CreateAnswer,
    SetLocalDescription(SessionDescriptionView),
    SetRemoteDescription(SessionDescriptionView),
    AddIceCandidate(IceCandidateView),
}

impl View for EngineCommand {
    type V = EngineCommandView;

    open spec fn view(&self) -> EngineCommandView {
        match self {
            EngineCommand::CreateOffer => EngineCommandView::CreateOffer,
            EngineCommand::CreateAnswer => EngineCommandView::CreateAnswer,
            EngineCommand::SetLocalDescription(d) => EngineCommandView::SetLocalDescription(d@),
            EngineCommand::SetRemoteDescription(d) => EngineCommandView::SetRemoteDescription(d@),
            EngineCommand::AddIceCandidate(c) => EngineCommandView::AddIceCandidate(c@),
        }
    }
}

impl EngineCommandView {
    /// What the controller remembers of a command.
    pub open spec fn operation(self) -> Operation {
        match self {
            EngineCommandView::CreateOffer => Operation::CreateOffer,
            EngineCommandView::CreateAnswer => Operation::CreateAnswer,
            EngineCommandView::SetLocalDescription(d) => Operation::SetLocalDescription(d.kind),
            EngineCommandView::SetRemoteDescription(d) => Operation::SetRemoteDescription(d.kind),
            EngineCommandView::AddIceCandidate(_) => Operation::AddIceCandidate,
        }
    }
}

/// How the engine resolved an operation.
#[derive(Clone, Debug, PartialEq, Eq)]
pub enum EngineReply {
    /// It resolved with a description; this is the description's SDP text.
    /// For a create operation it is the created description, for
    /// set-local-description the description that the engine committed.
    Description(String),
    /// It resolved without a value.
    Done,
    /// It refused the operation.
    Rejected,
}

/// The mathematical value of an [`EngineReply`].
pub enum EngineReplyView {
    Description(Seq<char>),
    Done,
    Rejected,
}

impl View for EngineReply {
    type V = EngineReplyView;

    open spec fn view(&self) -> EngineReplyView {
        match self {
            EngineReply::Description(sdp) => EngineReplyView::Description(sdp@),
            EngineReply::Done => EngineReplyView::Done,
            EngineReply::Rejected => EngineReplyView::Rejected,
        }
    }
}

/// What a successful engine operation achieved.
#[derive(Clone, Debug, PartialEq, Eq)]
pub enum Completion {
    /// The engine created this description. It is not committed yet.
    Created(SessionDescription),
    /// The engine committed this description as the local one.
    LocalCommitted(SessionDescription),
    /// The engine applied the peer's description of this kind.
    RemoteApplied(SdpKind),
    /// The engine took the candidate.
    CandidateAdded,
}

/// The mathematical value of a [`Completion`].
pub enum CompletionView {
    Created(SessionDescriptionView),
    LocalCommitted(SessionDescriptionView),
    RemoteApplied(SdpKind),
    CandidateAdded,
}

impl View for Completion {
    type V = CompletionView;

    open spec fn view(&self) -> CompletionView {
        match self {
            Completion::Created(d) => CompletionView::Created(d@),
            Completion::LocalCommitted(d) => CompletionView::LocalCommitted(d@),
            Completion::RemoteApplied(k) => CompletionView::RemoteApplied(*k),
            Completion::CandidateAdded => CompletionView::CandidateAdded,
        }
    }
}

/// What the engine's reply means for the operation it answers.
///
/// An operation that yields a description succeeds only with one: the
/// description takes its kind from the operation and its text from the
/// reply. The other two succeed unless the engine refused them. A refused
/// candidate is `CandidateRejected`, every other failure
/// `DescriptionRejected`.
pub open spec fn resolve_spec(op: Operation, reply: EngineReplyView) -> Result<
    CompletionView,
    EngineError,
> {
    match op {
        Operation::CreateOffer => match reply {
            EngineReplyView::Description(sdp) => Ok(
                CompletionView::Created(SessionDescriptionView { kind: SdpKind::Offer, sdp }),
            ),
            _ => Err(EngineError::DescriptionRejected),
        },
        Operation::CreateAnswer => match reply {
            EngineReplyView::Description(sdp) => Ok(
                CompletionView::Created(SessionDescriptionView { kind: SdpKind::Answer, sdp }),
            ),
            _ => Err(EngineError::DescriptionRejected),
        },
        Operation::SetLocalDescription(kind) => match reply {
            EngineReplyView::Description(sdp) => Ok(
                CompletionView::LocalCommitted(SessionDescriptionView { kind, sdp }),
            ),
            _ => Err(EngineError::DescriptionRejected),
        },
        Operation::SetRemoteDescription(kind) => match reply {
            EngineReplyView::Rejected => Err(EngineError::DescriptionRejected),
            _ => Ok(CompletionView::RemoteApplied(kind)),
        },
        Operation::AddIceCandidate => match reply {
            EngineReplyView::Rejected => Err(EngineError::CandidateRejected),
            _ => Ok(CompletionView::CandidateAdded),
        },
    }
}

/// The view of an optional description.
pub open spec fn opt_description(d: Option<SessionDescription>) -> Option<SessionDescriptionView> {
    match d {
        Some(d) => Some(d@),
        None => None,
    }
}

/// The view of what [`WebRTCConnection::resolve`] returns.
pub open spec fn resolution_view(r: Option<Result<Completion, EngineError>>) -> Option<
    Result<CompletionView, EngineError>,
> {
    match r {
        Some(Ok(c)) => Some(Ok(c@)),
        Some(Err(e)) => Some(Err(e)),
        None => None,
    }
}

/// The view of an optional command.
pub open spec fn opt_command(c: Option<EngineCommand>) -> Option<EngineCommandView> {
    match c {
        Some(c) => Some(c@),
        None => None,
    }
}

/// The discovery server that a connection uses when it is given no other.
pub fn get_ice_server() -> (server: String)
    ensures
        server@ == "stun:stun.l.google.com:19302"@,
{
    "stun:stun.l.google.com:19302".to_owned()
}

/// The controller of one engine instance.
///
/// At most one operation is under way at a time: a new one starts only when
/// the engine has resolved the one before.
#[derive(Debug)]
pub struct WebRTCConnection {
    ice_server: String,
    in_flight: Option<Operation>,
    local: Option<SessionDescription>,
}

/// The mathematical value of a [`WebRTCConnection`].
pub struct ConnectionView {
    /// The discovery server that the engine was configured with.
    pub ice_server: Seq<char>,
    /// The operation that the engine is working on.
    pub in_flight: Option<Operation>,
    /// The description that the engine last committed as the local one.
    pub local: Option<SessionDescriptionView>,
}

impl ConnectionView {
    /// The controller after it has let `op` start, where none was under way;
    /// unchanged otherwise.
    pub open spec fn begin(self, op: Operation) -> ConnectionView {
        if self.in_flight is None {
            ConnectionView { in_flight: Some(op), ..self }
        } else {
            self
        }
    }

    /// The controller after the engine has resolved the operation under way.
    pub open spec fn resolve(self, reply: EngineReplyView) -> ConnectionView {
        match self.in_flight {
            Some(op) => ConnectionView {
                in_flight: None,
                local: match resolve_spec(op, reply) {
                    Ok(CompletionView::LocalCommitted(d)) => Some(d),
                    _ => self.local,
                },
                ..self
            },
            None => self,
        }
    }

    /// The controller after it has given up the operation under way.
    pub open spec fn abandon(self) -> ConnectionView {
        ConnectionView { in_flight: None, ..self }
    }
}

impl View for WebRTCConnection {
    type V = ConnectionView;

    closed spec fn view(&self) -> ConnectionView {
        ConnectionView {
            ice_server: self.ice_server@,
            in_flight: self.in_flight,
            local: opt_description(self.local),
        }
    }
}

impl WebRTCConnection {
    /// A controller for an engine that is configured with `ice_server`. No
    /// operation is under way and nothing is committed.
    pub fn new(ice_server: String) -> (c: WebRTCConnection)
        ensures
            c@ == (ConnectionView { ice_server: ice_server@, in_flight: None, local: None }),
    {
        WebRTCConnection { ice_server, in_flight: None, local: None }
    }

    /// The discovery server that the engine is configured with.
    pub fn ice_server(&self) -> (server: &str)
        ensures
            server@ == self@.ice_server,
    {
        self.ice_server.as_str()
    }

    /// The operation under way.
    pub fn in_flight(&self) -> (op: Option<Operation>)
        ensures
            op == self@.in_flight,
    {
        self.in_flight
    }

    /// The description that the engine last committed as the local one.
    pub fn local_description(&self) -> (d: Option<&SessionDescription>)
        ensures
            match d {
                Some(d) => self@.local == Some(d@),
                None => self@.local is None,
            },
    {
        self.local.as_ref()
    }

    /// Lets `command` start if no operation is under way.
    fn begin(&mut self, command: EngineCommand) -> (started: Option<EngineCommand>)
        ensures
            final(self)@ == old(self)@.begin(command@.operation()),
            opt_command(started) == if old(self)@.in_flight is None {
                Some(command@)
            } else {
                None
            },
    {
        if self.in_flight.is_some() {
            return None;
        }
        let op = match &command {
            EngineCommand::CreateOffer => Operation::CreateOffer,
            EngineCommand::CreateAnswer => Operation::CreateAnswer,
            EngineCommand::SetLocalDescription(d) => Operation::SetLocalDescription(d.kind),
            EngineCommand::SetRemoteDescription(d) => Operation::SetRemoteDescription(d.kind),
            EngineCommand::AddIceCandidate(_) => Operation::AddIceCandidate,
        };
        self.in_flight = Some(op);
        Some(command)
    }

    /// Asks the engine for an offer. Returns the command to perform, or
    /// `None`, with nothing changed, while another operation is under way.
    pub fn create_offer(&mut self) -> (started: Option<EngineCommand>)
        ensures
            final(self)@ == old(self)@.begin(Operation::CreateOffer),
            opt_command(started) == if old(self)@.in_flight is None {
                Some(EngineCommandView::CreateOffer)
            } else {
                None
            },
    {
        self.begin(EngineCommand::CreateOffer)
    }

    /// Asks the engine for an answer. Returns the command to perform, or
    /// `None`, with nothing changed, while another operation is under way.
    pub fn create_answer(&mut self) -> (started: Option<EngineCommand>)
        ensures
            final(self)@ == old(self)@.begin(Operation::CreateAnswer),
            opt_command(started) == if old(self)@.in_flight is None {
                Some(EngineCommandView::CreateAnswer)
            } else {
                None
            },
    {
        self.begin(EngineCommand::CreateAnswer)
    }

    /// Asks the engine to commit `description` as the local one. Returns the
    /// command to perform, or `None`, with nothing changed, while another
    /// operation is under way.
    pub fn set_local_description(&mut self, description: SessionDescription) -> (started: Option<
        EngineCommand,
    >)
        ensures
            final(self)@ == old(self)@.begin(Operation::SetLocalDescription(description.kind)),
            opt_command(started) == if old(self)@.in_flight is None {
                Some(EngineCommandView::SetLocalDescription(description@))
            } else {
                None
            },
    {
        self.begin(EngineCommand::SetLocalDescription(description))
    }

    /// Asks the engine to apply the peer's `description`. Returns the command
    /// to perform, or `None`, with nothing changed, while another operation is
    /// under way.
    pub fn set_remote_description(&mut self, description: SessionDescription) -> (started: Option<
        EngineCommand,
    >)
        ensures
            final(self)@ == old(self)@.begin(Operation::SetRemoteDescription(description.kind)),
            opt_command(started) == if old(self)@.in_flight is None {
                Some(EngineCommandView::SetRemoteDescription(description@))
            } else {
                None
            },
    {
        self.begin(EngineCommand::SetRemoteDescription(description))
    }

    /// Asks the engine to take the peer's `candidate`. Returns the command to
    /// perform, or `None`, with nothing changed, while another operation is
    /// under way.
    pub fn add_ice_candidate(&mut self, candidate: IceCandidate) -> (started: Option<
        EngineCommand,
    >)
        ensures
            final(self)@ == old(self)@.begin(Operation::AddIceCandidate),
            opt_command(started) == if old(self)@.in_flight is None {
                Some(EngineCommandView::AddIceCandidate(candidate@))
            } else {
                None
            },
    {
        self.begin(EngineCommand::AddIceCandidate(candidate))
    }

    /// Takes the engine's reply to the operation under way.
    ///
    /// Returns `None`, with nothing changed, if no operation is under way.
    /// Otherwise the operation is over, and the result says what it achieved
    /// or why the engine refused it. A committed local description is
    /// remembered.
    pub fn resolve(&mut self, reply: EngineReply) -> (r: Option<Result<Completion, EngineError>>)
        ensures
            final(self)@ == old(self)@.resolve(reply@),
            resolution_view(r) == match old(self)@.in_flight {
                Some(op) => Some(resolve_spec(op, reply@)),
                None => None,
            },
    {
        let op = match self.in_flight.take() {
            Some(op) => op,
            None => {
                return None;
            },
        };
        let outcome = match op {
            Operation::CreateOffer => match reply {
                EngineReply::Description(sdp) => Ok(
                    Completion::Created(SessionDescription::offer(sdp)),
                ),
                _ => Err(EngineError::DescriptionRejected),
            },
            Operation::CreateAnswer => match reply {
                EngineReply::Description(sdp) => Ok(
                    Completion::Created(SessionDescription::answer(sdp)),
                ),
                _ => Err(EngineError::DescriptionRejected),
            },
            Operation::SetLocalDescription(kind) => match reply {
                EngineReply::Description(sdp) => {
                    self.local = Some(SessionDescription { kind, sdp: sdp.clone() });
                    Ok(Completion::LocalCommitted(SessionDescription { kind, sdp }))
                },
                _ => Err(EngineError::DescriptionRejected),
            },
            Operation::SetRemoteDescription(kind) => match reply {
                EngineReply::Rejected => Err(EngineError::DescriptionRejected),
                _ => Ok(Completion::RemoteApplied(kind)),
            },
            Operation::AddIceCandidate => match reply {
                EngineReply::Rejected => Err(EngineError::CandidateRejected),
                _ => Ok(Completion::CandidateAdded),
            },
        };
        Some(outcome)
    }

    /// Gives up the operation under way, if there is one. The engine's reply
    /// to it will find no operation to answer.
    pub fn abandon(&mut self)
        ensures
            final(self)@ == old(self)@.abandon(),
    {
        self.in_flight = None;
    }
}

} // verus!
