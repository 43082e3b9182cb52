//! The data that two peers exchange while they negotiate a connection.

use vstd::prelude::*;

verus! {

/// Which side of an offer/answer exchange a session description belongs to.
#[derive(Clone, Copy, Debug, PartialEq, Eq, Structural)]
pub enum SdpKind {
    Offer,
    Answer,
}

/// A session description: produced by the engine, handed to its
/// set-description calls, and carried between the peers.
#[derive(Clone, Debug, PartialEq, Eq)]
pub struct SessionDescription {
    pub kind: SdpKind,
    pub sdp: String,
}

/// The mathematical value of a [`SessionDescription`].
pub struct SessionDescriptionView {
    pub kind: SdpKind,
    pub sdp: Seq<char>,
}

impl View for SessionDescription {
    type V = SessionDescriptionView;

    open spec fn view(&self) -> SessionDescriptionView {
        SessionDescriptionView { kind: self.kind, sdp: self.sdp@ }
    }
}

/// A proposed network path. `sdp_mid` and `sdp_m_line_index` are optional on
/// the wire and stay absent here when the peer did not send them.
#[derive(Clone, Debug, PartialEq, Eq)]
pub struct IceCandidate {
    pub candidate: String,
    pub sdp_mid: Option<String>,
    pub sdp_m_line_index: Option<u16>,
}

/// The mathematical value of an [`IceCandidate`].
pub struct IceCandidateView {
    pub candidate: Seq<char>,
    pub sdp_mid: Option<Seq<char>>,
    pub sdp_m_line_index: Option<u16>,
}

/// The view of an optional string.
pub open spec fn opt_text(s: Option<String>) -> Option<Seq<char>> {
    match s {
        Some(t) => Some(t@),
        None => None,
    }
}

impl View for IceCandidate {
    type V = IceCandidateView;

    open spec fn view(&self) -> IceCandidateView {
        IceCandidateView {
            candidate: self.candidate@,
            sdp_mid: opt_text(self.sdp_mid),
            sdp_m_line_index: self.sdp_m_line_index,
        }
    }
}

/// One message of the signaling channel.
///
/// `Opaque` stands for any payload that is not a negotiation message; it
/// carries the payload unchanged.
#[derive(Clone, Debug, PartialEq, Eq)]
pub enum SignalingMessage {
    Offer(SessionDescription),
    Answer(SessionDescription),
    IceCandidate(IceCandidate),
    Opaque(String),
}

/// The mathematical value of a [`SignalingMessage`].
pub enum SignalingMessageView {
    Offer(SessionDescriptionView),
    Answer(SessionDescriptionView),
    IceCandidate(IceCandidateView),
    Opaque(Seq<char>),
}

impl SignalingMessageView {
    /// An offer carries a description of kind `Offer`, an answer one of kind
    /// `Answer`.
    pub open spec fn wf(self) -> bool {
        match self {
            SignalingMessageView::Offer(d) => d.kind == SdpKind::Offer,
            SignalingMessageView::Answer(d) => d.kind == SdpKind::Answer,
            _ => true,
        }
    }
}

impl View for SignalingMessage {
    type V = SignalingMessageView;

    open spec fn view(&self) -> SignalingMessageView {
        match self {
            SignalingMessage::Offer(d) => SignalingMessageView::Offer(d@),
            SignalingMessage::Answer(d) => SignalingMessageView::Answer(d@),
            SignalingMessage::IceCandidate(c) => SignalingMessageView::IceCandidate(c@),
            SignalingMessage::Opaque(t) => SignalingMessageView::Opaque(t@),
        }
    }
}

impl SessionDescription {
    /// An offer with the given SDP text.
    pub fn offer(sdp: String) -> (d: SessionDescription)
        ensures
            d@ == (SessionDescriptionView { kind: SdpKind::Offer, sdp: sdp@ }),
    {
        SessionDescription { kind: SdpKind::Offer, sdp }
    }

    /// An answer with the given SDP text.
    pub fn answer(sdp: String) -> (d: SessionDescription)
        ensures
            d@ == (SessionDescriptionView { kind: SdpKind::Answer, sdp: sdp@ }),
    {
        SessionDescription { kind: SdpKind::Answer, sdp }
    }
}

impl SignalingMessage {
    /// The message that carries `desc` to the peer: an offer for a description
    /// of kind `Offer`, an answer for one of kind `Answer`.
    pub fn describing(desc: SessionDescription) -> (m: SignalingMessage)
        ensures
            m@ == describing_spec(desc@),
            m@.wf(),
    {
        match desc.kind {
            SdpKind::Offer => SignalingMessage::Offer(desc),
            SdpKind::Answer => SignalingMessage::Answer(desc),
        }
    }
}

/// The message that carries a description to the peer.
pub open spec fn describing_spec(desc: SessionDescriptionView) -> SignalingMessageView {
    match desc.kind {
        SdpKind::Offer => SignalingMessageView::Offer(desc),
        SdpKind::Answer => SignalingMessageView::Answer(desc),
    }
}

} // verus!
