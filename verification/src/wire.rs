//! The wire format of the signaling channel: JSON objects, one per message.
//!
//! ```text
//! {"type":"offer","sdp":"<SDP text>"}
//! {"type":"answer","sdp":"<SDP text>"}
//! {"type":"icecandidate","candidate":{"candidate":"<line>","sdpMid":"<string|null>","sdpMLineIndex":<uint16|null>}}
//! ```

use vstd::prelude::*;
use vstd::string::*;
use crate::json::{json_document, json_member, json_quoted, json_text, json_unsigned};
use crate::json::{member, parse_document, quote, text_of, unsigned_of};
use crate::message::{IceCandidate, IceCandidateView, SdpKind, SessionDescription};
use crate::message::{SessionDescriptionView, SignalingMessage, SignalingMessageView, opt_text};

verus! {

/// Why a JSON payload is not handled as a negotiation message.
#[derive(Clone, Copy, Debug, PartialEq, Eq, Structural)]
pub enum DecodeError {
    /// The payload does not fit the schema: it has no string `type`, or a
    /// field that its `type` requires is missing.
    MalformedMessage,
    /// The payload names a `type` that this protocol does not know.
    UnrecognizedKind,
}

/// The members of the `candidate` object, as far as they were present with
/// the expected JSON type.
#[derive(Clone, Debug, PartialEq, Eq)]
pub struct RawCandidate {
    pub candidate: Option<String>,
    pub sdp_mid: Option<String>,
    pub sdp_m_line_index: Option<u64>,
}

/// The mathematical value of a [`RawCandidate`].
pub struct RawCandidateView {
    pub candidate: Option<Seq<char>>,
    pub sdp_mid: Option<Seq<char>>,
    pub sdp_m_line_index: Option<u64>,
}

impl View for RawCandidate {
    type V = RawCandidateView;

    open spec fn view(&self) -> RawCandidateView {
        RawCandidateView {
            candidate: opt_text(self.candidate),
            sdp_mid: opt_text(self.sdp_mid),
            sdp_m_line_index: self.sdp_m_line_index,
        }
    }
}

/// The members of a JSON payload that the protocol looks at, as far as they
/// were present with the expected JSON type.
#[derive(Clone, Debug, PartialEq, Eq)]
pub struct RawMessage {
    pub kind: Option<String>,
    pub sdp: Option<String>,
    pub candidate: Option<RawCandidate>,
}

/// The mathematical value of a [`RawMessage`].
pub struct RawMessageView {
    pub kind: Option<Seq<char>>,
    pub sdp: Option<Seq<char>>,
    pub candidate: Option<RawCandidateView>,
}

impl View for RawMessage {
    type V = RawMessageView;

    open spec fn view(&self) -> RawMessageView {
        RawMessageView {
            kind: opt_text(self.kind),
            sdp: opt_text(self.sdp),
            candidate: match self.candidate {
                Some(c) => Some(c@),
                None => None,
            },
        }
    }
}

/// The 16-bit media-line index that a JSON number stands for: its low 16
/// bits.
pub open spec fn line_index(n: u64) -> u16 {
    (n % 65536) as u16
}

/// The candidate that a `candidate` object describes. A missing candidate
/// line is the empty line; the two optional members stay absent.
pub open spec fn candidate_of(raw: RawCandidateView) -> IceCandidateView {
    IceCandidateView {
        candidate: match raw.candidate {
            Some(line) => line,
            None => Seq::<char>::empty(),
        },
        sdp_mid: raw.sdp_mid,
        sdp_m_line_index: match raw.sdp_m_line_index {
            Some(n) => Some(line_index(n)),
            None => None,
        },
    }
}

/// The negotiation message that the members of a JSON payload describe.
pub open spec fn interpret_spec(raw: RawMessageView) -> Result<SignalingMessageView, DecodeError> {
    match raw.kind {
        None => Err(DecodeError::MalformedMessage),
        Some(kind) => if kind == "offer"@ {
            match raw.sdp {
                Some(sdp) => Ok(
                    SignalingMessageView::Offer(
                        SessionDescriptionView { kind: SdpKind::Offer, sdp },
                    ),
                ),
                None => Err(DecodeError::MalformedMessage),
            }
        } else if kind == "answer"@ {
            match raw.sdp {
                Some(sdp) => Ok(
                    SignalingMessageView::Answer(
                        SessionDescriptionView { kind: SdpKind::Answer, sdp },
                    ),
                ),
                None => Err(DecodeError::MalformedMessage),
            }
        } else if kind == "icecandidate"@ {
            match raw.candidate {
                Some(c) => Ok(SignalingMessageView::IceCandidate(candidate_of(c))),
                None => Err(DecodeError::MalformedMessage),
            }
        } else {
            Err(DecodeError::UnrecognizedKind)
        },
    }
}

/// The view of the outcome of [`interpret`].
pub open spec fn outcome_view(r: Result<SignalingMessage, DecodeError>) -> Result<
    SignalingMessageView,
    DecodeError,
> {
    match r {
        Ok(m) => Ok(m@),
        Err(e) => Err(e),
    }
}

/// Whether `s` holds exactly the text `literal`.
fn text_is(s: &String, literal: &str) -> (same: bool)
    ensures
        same == (s@ == literal@),
{
    let owned = literal.to_owned();
    *s == owned
}

/// Builds the candidate that a `candidate` object describes.
pub fn candidate_from_raw(raw: RawCandidate) -> (c: IceCandidate)
    ensures
        c@ == candidate_of(raw@),
{
    let RawCandidate { candidate, sdp_mid, sdp_m_line_index } = raw;
    let line = match candidate {
        Some(line) => line,
        None => String::new(),
    };
    let index = match sdp_m_line_index {
        Some(n) => Some((n % 65536) as u16),
        None => None,
    };
    IceCandidate { candidate: line, sdp_mid, sdp_m_line_index: index }
}

/// Turns the members of a JSON payload into a negotiation message.
///
/// An `offer` or `answer` needs its `sdp`, an `icecandidate` its `candidate`
/// object; without it the payload is malformed, as is one without a string
/// `type`. Any other `type` is unrecognized.
pub fn interpret(raw: RawMessage) -> (r: Result<SignalingMessage, DecodeError>)
    ensures
        outcome_view(r) == interpret_spec(raw@),
        r matches Ok(m) ==> m@.wf() && !(m@ is Opaque),
{
    let RawMessage { kind, sdp, candidate } = raw;
    match kind {
        None => Err(DecodeError::MalformedMessage),
        Some(kind) => {
            if text_is(&kind, "offer") {
                match sdp {
                    Some(sdp) => Ok(SignalingMessage::Offer(SessionDescription::offer(sdp))),
                    None => Err(DecodeError::MalformedMessage),
                }
            } else if text_is(&kind, "answer") {
                match sdp {
                    Some(sdp) => Ok(SignalingMessage::Answer(SessionDescription::answer(sdp))),
                    None => Err(DecodeError::MalformedMessage),
                }
            } else if text_is(&kind, "icecandidate") {
                match candidate {
                    Some(c) => Ok(SignalingMessage::IceCandidate(candidate_from_raw(c))),
                    None => Err(DecodeError::MalformedMessage),
                }
            } else {
                Err(DecodeError::UnrecognizedKind)
            }
        },
    }
}

/// The text stored under `key` in `doc`, where `doc` is an object whose
/// member `key` is a JSON string.
pub open spec fn member_text(doc: serde_json::Value, key: Seq<char>) -> Option<Seq<char>> {
    match json_member(doc, key) {
        Some(inner) => json_text(inner),
        None => None,
    }
}

/// The number stored under `key` in `doc`, where `doc` is an object whose
/// member `key` is a non-negative integer.
pub open spec fn member_unsigned(doc: serde_json::Value, key: Seq<char>) -> Option<u64> {
    match json_member(doc, key) {
        Some(inner) => json_unsigned(inner),
        None => None,
    }
}

/// The members of a `candidate` object.
pub open spec fn raw_candidate_of(doc: serde_json::Value) -> RawCandidateView {
    RawCandidateView {
        candidate: member_text(doc, "candidate"@),
        sdp_mid: member_text(doc, "sdpMid"@),
        sdp_m_line_index: member_unsigned(doc, "sdpMLineIndex"@),
    }
}

/// The members of a JSON document that the protocol looks at.
pub open spec fn raw_message_of(doc: serde_json::Value) -> RawMessageView {
    RawMessageView {
        kind: member_text(doc, "type"@),
        sdp: member_text(doc, "sdp"@),
        candidate: match json_member(doc, "candidate"@) {
            Some(inner) => Some(raw_candidate_of(inner)),
            None => None,
        },
    }
}

/// What a payload decodes to: the negotiation message it describes, or the
/// reason why it is none. A payload that is not JSON is malformed.
pub open spec fn decode_spec(text: Seq<char>) -> Result<SignalingMessageView, DecodeError> {
    match json_document(text) {
        Some(doc) => interpret_spec(raw_message_of(doc)),
        None => Err(DecodeError::MalformedMessage),
    }
}

/// What becomes of a payload with the given decoding outcome: a negotiation
/// message is handled as such, a malformed payload passes through unchanged
/// as `Opaque`, and one of an unrecognized kind is ignored.
pub open spec fn classify_outcome_spec(
    text: Seq<char>,
    outcome: Result<SignalingMessageView, DecodeError>,
) -> Option<SignalingMessageView> {
    match outcome {
        Ok(m) => Some(m),
        Err(DecodeError::MalformedMessage) => Some(SignalingMessageView::Opaque(text)),
        Err(DecodeError::UnrecognizedKind) => None,
    }
}

/// What becomes of an inbound payload.
pub open spec fn classify_spec(text: Seq<char>) -> Option<SignalingMessageView> {
    classify_outcome_spec(text, decode_spec(text))
}

/// The view of an optional message.
pub open spec fn opt_message_view(m: Option<SignalingMessage>) -> Option<SignalingMessageView> {
    match m {
        Some(m) => Some(m@),
        None => None,
    }
}

/// Reads the string member `key` of `doc`.
fn read_text(doc: &serde_json::Value, key: &str) -> (t: Option<String>)
    ensures
        opt_text(t) == member_text(*doc, key@),
{
    match member(doc, key) {
        Some(inner) => match text_of(inner) {
            Some(t) => Some(t.to_owned()),
            None => None,
        },
        None => None,
    }
}

/// Reads the members of a `candidate` object.
fn extract_candidate(doc: &serde_json::Value) -> (raw: RawCandidate)
    ensures
        raw@ == raw_candidate_of(*doc),
{
    let candidate = read_text(doc, "candidate");
    let sdp_mid = read_text(doc, "sdpMid");
    let sdp_m_line_index = match member(doc, "sdpMLineIndex") {
        Some(inner) => unsigned_of(inner),
        None => None,
    };
    RawCandidate { candidate, sdp_mid, sdp_m_line_index }
}

/// Reads the members of a JSON document that the protocol looks at.
fn extract(doc: &serde_json::Value) -> (raw: RawMessage)
    ensures
        raw@ == raw_message_of(*doc),
{
    let kind = read_text(doc, "type");
    let sdp = read_text(doc, "sdp");
    let candidate = match member(doc, "candidate") {
        Some(inner) => Some(extract_candidate(inner)),
        None => None,
    };
    RawMessage { kind, sdp, candidate }
}

/// Decodes one payload of the signaling channel.
///
/// The result is the negotiation message that the payload describes. A
/// payload that is not JSON, or that lacks a string `type` or a required
/// field, is `MalformedMessage`; one with an unknown `type` is
/// `UnrecognizedKind`.
pub fn decode(text: &str) -> (r: Result<SignalingMessage, DecodeError>)
    ensures
        outcome_view(r) == decode_spec(text@),
        r matches Ok(m) ==> m@.wf() && !(m@ is Opaque),
        json_document(text@) is None ==> r == Err::<SignalingMessage, DecodeError>(
            DecodeError::MalformedMessage,
        ),
{
    match parse_document(text) {
        Ok(doc) => interpret(extract(&doc)),
        Err(_) => Err(DecodeError::MalformedMessage),
    }
}

/// Decides what becomes of a payload, given its decoding outcome: `Some` of
/// the message to handle, where a malformed payload is handed on unchanged
/// as `Opaque`, or `None` for a payload to ignore.
pub fn classify_outcome(text: String, outcome: Result<SignalingMessage, DecodeError>) -> (m: Option<
    SignalingMessage,
>)
    ensures
        opt_message_view(m) == classify_outcome_spec(text@, outcome_view(outcome)),
{
    match outcome {
        Ok(m) => Some(m),
        Err(DecodeError::MalformedMessage) => Some(SignalingMessage::Opaque(text)),
        Err(DecodeError::UnrecognizedKind) => None,
    }
}

/// Decides what becomes of an inbound payload: a negotiation message, the
/// payload itself as `Opaque`, or nothing.
pub fn classify(text: String) -> (m: Option<SignalingMessage>)
    ensures
        opt_message_view(m) == classify_spec(text@),
        m matches Some(msg) ==> msg@.wf(),
        json_document(text@) is None ==> opt_message_view(m) == Some(
            SignalingMessageView::Opaque(text@),
        ),
{
    let outcome = decode(text.as_str());
    classify_outcome(text, outcome)
}

/// The text of one decimal digit.
pub open spec fn digit_text(d: nat) -> Seq<char> {
    if d == 0 {
        "0"@
    } else if d == 1 {
        "1"@
    } else if d == 2 {
        "2"@
    } else if d == 3 {
        "3"@
    } else if d == 4 {
        "4"@
    } else if d == 5 {
        "5"@
    } else if d == 6 {
        "6"@
    } else if d == 7 {
        "7"@
    } else if d == 8 {
        "8"@
    } else {
        "9"@
    }
}

/// The decimal numeral of `n`, without leading zeros.
pub open spec fn decimal_spec(n: nat) -> Seq<char>
    decreases n,
{
    if n < 10 {
        digit_text(n)
    } else {
        decimal_spec(n / 10) + digit_text(n % 10)
    }
}

/// The JSON text of an optional string: its literal, or `null`.
pub open spec fn optional_quoted(t: Option<Seq<char>>) -> Seq<char> {
    match t {
        Some(t) => json_quoted(t),
        None => "null"@,
    }
}

/// The JSON text of an optional media-line index: its numeral, or `null`.
pub open spec fn optional_decimal(n: Option<u16>) -> Seq<char> {
    match n {
        Some(n) => decimal_spec(n as nat),
        None => "null"@,
    }
}

/// The payload that carries a message. An opaque message is its own payload.
pub open spec fn encode_spec(m: SignalingMessageView) -> Seq<char> {
    match m {
        SignalingMessageView::Offer(d) => "{\"type\":\"offer\",\"sdp\":"@ + json_quoted(d.sdp)
            + "}"@,
        SignalingMessageView::Answer(d) => "{\"type\":\"answer\",\"sdp\":"@ + json_quoted(d.sdp)
            + "}"@,
        SignalingMessageView::IceCandidate(c) =>
            "{\"type\":\"icecandidate\",\"candidate\":{\"candidate\":"@ + json_quoted(
                c.candidate,
            ) + ",\"sdpMid\":"@ + optional_quoted(c.sdp_mid) + ",\"sdpMLineIndex\":"@
                + optional_decimal(c.sdp_m_line_index) + "}}"@,
        SignalingMessageView::Opaque(t) => t,
    }
}

/// Appends the JSON string literal for `value` to `text`.
fn append_quoted(text: &mut String, value: &str)
    ensures
        final(text)@ == old(text)@ + json_quoted(value@),
{
    match quote(value) {
        Ok(literal) => text.append(literal.as_str()),
        Err(_) => unreached(),
    }
}

/// The text of one decimal digit.
fn digit(d: u16) -> (t: &'static str)
    requires
        d < 10,
    ensures
        t@ == digit_text(d as nat),
{
    if d == 0 {
        "0"
    } else if d == 1 {
        "1"
    } else if d == 2 {
        "2"
    } else if d == 3 {
        "3"
    } else if d == 4 {
        "4"
    } else if d == 5 {
        "5"
    } else if d == 6 {
        "6"
    } else if d == 7 {
        "7"
    } else if d == 8 {
        "8"
    } else {
        "9"
    }
}

/// Writes `n` as a decimal numeral without leading zeros.
pub fn decimal(n: u16) -> (t: String)
    ensures
        t@ == decimal_spec(n as nat),
    decreases n,
{
    if n < 10 {
        digit(n).to_owned()
    } else {
        let mut t = decimal(n / 10);
        t.append(digit(n % 10));
        t
    }
}

/// Encodes a message as the payload that carries it to the peer.
pub fn encode(m: &SignalingMessage) -> (text: String)
    ensures
        text@ == encode_spec(m@),
{
    match m {
        SignalingMessage::Offer(d) => {
            let mut text = "{\"type\":\"offer\",\"sdp\":".to_owned();
            append_quoted(&mut text, d.sdp.as_str());
            text.append("}");
            text
        },
        SignalingMessage::Answer(d) => {
            let mut text = "{\"type\":\"answer\",\"sdp\":".to_owned();
            append_quoted(&mut text, d.sdp.as_str());
            text.append("}");
            text
        },
        SignalingMessage::IceCandidate(c) => {
            let mut text = "{\"type\":\"icecandidate\",\"candidate\":{\"candidate\":".to_owned();
            append_quoted(&mut text, c.candidate.as_str());
            text.append(",\"sdpMid\":");
            match &c.sdp_mid {
                Some(mid) => append_quoted(&mut text, mid.as_str()),
                None => text.append("null"),
            }
            text.append(",\"sdpMLineIndex\":");
            match c.sdp_m_line_index {
                Some(n) => text.append(decimal(n).as_str()),
                None => text.append("null"),
            }
            text.append("}}");
            text
        },
        SignalingMessage::Opaque(t) => t.clone(),
    }
}

} // verus!
