use webrtc_signaling::client::{
    Action, Event, Fault, NegotiationState, SendFailed, WebSocketClient,
};
use webrtc_signaling::message::{IceCandidate, SdpKind, SessionDescription, SignalingMessage};
use webrtc_signaling::webrtc_peer_connection::{
    get_ice_server, EngineCommand, EngineReply, Operation,
};
use webrtc_signaling::wire::encode;

fn client() -> WebSocketClient {
    WebSocketClient::new(get_ice_server())
}

fn offer(sdp: &str) -> SessionDescription {
    SessionDescription { kind: SdpKind::Offer, sdp: sdp.to_string() }
}

fn answer(sdp: &str) -> SessionDescription {
    SessionDescription { kind: SdpKind::Answer, sdp: sdp.to_string() }
}

fn candidate(line: &str) -> IceCandidate {
    IceCandidate { candidate: line.to_string(), sdp_mid: Some("0".to_string()), sdp_m_line_index: Some(0) }
}

fn candidate_text(line: &str) -> String {
    encode(&SignalingMessage::IceCandidate(candidate(line)))
}

fn description(text: &str) -> EngineReply {
    EngineReply::Description(text.to_string())
}

#[test]
fn new_client_is_idle() {
    let c = client();
    assert_eq!(c.state(), NegotiationState::Idle);
    assert_eq!(c.backlog_len(), 0);
    assert_eq!(c.peerconnection().in_flight(), None);
    assert_eq!(c.peerconnection().ice_server(), "stun:stun.l.google.com:19302");
    assert!(!c.offer_outstanding());
}

#[test]
fn offer_message_is_answered_with_the_committed_answer() {
    let mut c = client();
    let actions = c.on_message(r#"{"type":"offer","sdp":"remote offer"}"#.to_string());
    assert_eq!(actions, vec![Action::Engine(EngineCommand::SetRemoteDescription(offer("remote offer")))]);
    assert_eq!(c.state(), NegotiationState::Idle);

    let actions = c.on_engine_reply(EngineReply::Done);
    assert_eq!(actions, vec![Action::Engine(EngineCommand::CreateAnswer)]);
    assert_eq!(c.state(), NegotiationState::HaveRemoteOffer);

    let actions = c.on_engine_reply(description("created answer"));
    assert_eq!(actions, vec![Action::Engine(EngineCommand::SetLocalDescription(answer("created answer")))]);
    assert_eq!(c.state(), NegotiationState::HaveRemoteOffer);

    let actions = c.on_engine_reply(description("committed answer"));
    assert_eq!(actions, vec![Action::Send(SignalingMessage::Answer(answer("committed answer")))]);
    assert_eq!(c.state(), NegotiationState::Stable);
    assert_eq!(c.peerconnection().local_description(), Some(&answer("committed answer")));
    assert_eq!(c.peerconnection().in_flight(), None);

    assert_eq!(c.on_engine_reply(EngineReply::Done), vec![]);
}

#[test]
fn answer_message_produces_no_outbound_message() {
    let mut c = client();
    c.offer();
    c.on_engine_reply(description("o"));
    c.on_engine_reply(description("o"));
    assert_eq!(c.state(), NegotiationState::HaveLocalOffer);

    let actions = c.on_message(r#"{"type":"answer","sdp":"remote answer"}"#.to_string());
    assert_eq!(actions, vec![Action::Engine(EngineCommand::SetRemoteDescription(answer("remote answer")))]);
    let actions = c.on_engine_reply(EngineReply::Done);
    assert_eq!(actions, vec![]);
    assert_eq!(c.state(), NegotiationState::Stable);
}

#[test]
fn candidate_without_optional_members_is_added() {
    let mut c = client();
    let actions = c.on_message(r#"{"type":"icecandidate","candidate":{"candidate":"candidate:7"}}"#.to_string());
    assert_eq!(
        actions,
        vec![Action::Engine(EngineCommand::AddIceCandidate(IceCandidate {
            candidate: "candidate:7".to_string(),
            sdp_mid: None,
            sdp_m_line_index: None,
        }))]
    );
    assert_eq!(c.on_engine_reply(EngineReply::Done), vec![]);
    assert_eq!(c.state(), NegotiationState::Idle);
}

#[test]
fn non_json_text_is_delivered_unchanged() {
    let mut c = client();
    let text = "plain chat \u{1F600} {not json".to_string();
    assert_eq!(c.on_message(text.clone()), vec![Action::Deliver(text)]);
    assert_eq!(c.state(), NegotiationState::Idle);
    assert_eq!(c.peerconnection().in_flight(), None);
}

#[test]
fn malformed_negotiation_message_is_delivered_unchanged() {
    let mut c = client();
    let text = r#"{"type":"offer","sdp":null}"#.to_string();
    assert_eq!(c.on_message(text.clone()), vec![Action::Deliver(text)]);
    let text = r#"{"no":"type"}"#.to_string();
    assert_eq!(c.on_message(text.clone()), vec![Action::Deliver(text)]);
    assert_eq!(c.peerconnection().in_flight(), None);
}

#[test]
fn unrecognized_type_changes_nothing() {
    let mut c = client();
    let actions = c.on_message(r#"{"type":"renegotiate","sdp":"x"}"#.to_string());
    assert_eq!(actions, vec![Action::Report(Fault::UnrecognizedKind)]);
    assert_eq!(c.state(), NegotiationState::Idle);
    assert_eq!(c.peerconnection().in_flight(), None);
    assert_eq!(c.backlog_len(), 0);
    assert_eq!(c.dispatch(None), vec![Action::Report(Fault::UnrecognizedKind)]);
}

#[test]
fn local_offer_is_sent_as_committed() {
    let mut c = client();
    assert_eq!(c.offer(), vec![Action::Engine(EngineCommand::CreateOffer)]);
    assert!(c.offer_outstanding());
    assert_eq!(
        c.on_engine_reply(description("created offer")),
        vec![Action::Engine(EngineCommand::SetLocalDescription(offer("created offer")))]
    );
    assert_eq!(c.state(), NegotiationState::Idle);
    assert_eq!(
        c.on_engine_reply(description("committed offer")),
        vec![Action::Send(SignalingMessage::Offer(offer("committed offer")))]
    );
    assert_eq!(c.state(), NegotiationState::HaveLocalOffer);
    assert_eq!(c.peerconnection().local_description(), Some(&offer("committed offer")));
}

#[test]
fn second_local_offer_is_refused_while_one_is_outstanding() {
    let mut c = client();
    c.offer();
    assert_eq!(c.offer(), vec![Action::Report(Fault::OfferOutstanding)]);
    c.on_engine_reply(description("o"));
    assert_eq!(c.offer(), vec![Action::Report(Fault::OfferOutstanding)]);
    c.on_engine_reply(description("o"));
    assert_eq!(c.state(), NegotiationState::HaveLocalOffer);
    assert_eq!(c.offer(), vec![Action::Report(Fault::OfferOutstanding)]);
    assert_eq!(c.backlog_len(), 0);

    c.receive(SignalingMessage::Answer(answer("a")));
    c.on_engine_reply(EngineReply::Done);
    assert_eq!(c.state(), NegotiationState::Stable);
    assert_eq!(c.offer(), vec![Action::Engine(EngineCommand::CreateOffer)]);
}

#[test]
fn queued_local_offer_counts_as_outstanding() {
    let mut c = client();
    c.receive(SignalingMessage::IceCandidate(candidate("c")));
    assert_eq!(c.offer(), vec![]);
    assert_eq!(c.backlog_len(), 1);
    assert!(c.offer_outstanding());
    assert_eq!(c.offer(), vec![Action::Report(Fault::OfferOutstanding)]);
    assert_eq!(c.backlog_len(), 1);
    assert_eq!(c.on_engine_reply(EngineReply::Done), vec![Action::Engine(EngineCommand::CreateOffer)]);
    assert_eq!(c.backlog_len(), 0);
}

#[test]
fn end_to_end_offer_and_answer() {
    let mut a = client();
    let mut b = client();

    let mut sent_by_a = Vec::new();
    for action in a.offer().into_iter().chain(a.on_engine_reply(description("offer sdp"))).chain(a.on_engine_reply(description("offer sdp"))) {
        if let Action::Send(m) = action {
            sent_by_a.push(encode(&m));
        }
    }
    assert_eq!(sent_by_a, vec![r#"{"type":"offer","sdp":"offer sdp"}"#.to_string()]);
    assert_eq!(a.state(), NegotiationState::HaveLocalOffer);

    let mut sent_by_b = Vec::new();
    let mut steps = b.on_message(sent_by_a[0].clone());
    steps.extend(b.on_engine_reply(EngineReply::Done));
    steps.extend(b.on_engine_reply(description("answer sdp")));
    steps.extend(b.on_engine_reply(description("answer sdp")));
    for action in steps {
        if let Action::Send(m) = action {
            sent_by_b.push(encode(&m));
        }
    }
    assert_eq!(sent_by_b, vec![r#"{"type":"answer","sdp":"answer sdp"}"#.to_string()]);
    assert_eq!(b.state(), NegotiationState::Stable);

    let mut steps = a.on_message(sent_by_b[0].clone());
    assert_eq!(steps, vec![Action::Engine(EngineCommand::SetRemoteDescription(answer("answer sdp")))]);
    steps.extend(a.on_engine_reply(EngineReply::Done));
    assert!(steps.iter().all(|action| !matches!(action, Action::Send(_))));
    assert_eq!(a.state(), NegotiationState::Stable);
}

#[test]
fn candidates_are_added_in_arrival_order() {
    let mut c = client();
    c.on_message(r#"{"type":"offer","sdp":"o"}"#.to_string());
    c.on_engine_reply(EngineReply::Done);
    assert_eq!(c.state(), NegotiationState::HaveRemoteOffer);

    let mut added = Vec::new();
    let mut note = |actions: Vec<Action>| {
        for action in actions {
            if let Action::Engine(EngineCommand::AddIceCandidate(k)) = action {
                added.push(k.candidate);
            }
        }
    };
    note(c.on_message(candidate_text("one")));
    note(c.on_message(candidate_text("two")));
    note(c.on_engine_reply(description("a")));
    note(c.on_message(candidate_text("three")));
    assert_eq!(c.backlog_len(), 3);
    note(c.on_engine_reply(description("a")));
    note(c.on_engine_reply(EngineReply::Done));
    note(c.on_message(candidate_text("four")));
    note(c.on_engine_reply(EngineReply::Rejected));
    note(c.on_engine_reply(EngineReply::Done));
    note(c.on_engine_reply(EngineReply::Done));
    assert_eq!(added, vec!["one", "two", "three", "four"]);
    assert_eq!(c.backlog_len(), 0);
    assert_eq!(c.peerconnection().in_flight(), None);
}

#[test]
fn back_to_back_offers_do_not_interleave() {
    let mut c = client();
    assert_eq!(
        c.on_message(r#"{"type":"offer","sdp":"first"}"#.to_string()),
        vec![Action::Engine(EngineCommand::SetRemoteDescription(offer("first")))]
    );
    assert_eq!(c.on_message(r#"{"type":"offer","sdp":"second"}"#.to_string()), vec![]);
    assert_eq!(c.backlog_len(), 1);
    assert_eq!(c.on_engine_reply(EngineReply::Done), vec![Action::Engine(EngineCommand::CreateAnswer)]);
    assert_eq!(
        c.on_engine_reply(description("a1")),
        vec![Action::Engine(EngineCommand::SetLocalDescription(answer("a1")))]
    );
    assert_eq!(
        c.on_engine_reply(description("a1")),
        vec![
            Action::Send(SignalingMessage::Answer(answer("a1"))),
            Action::Engine(EngineCommand::SetRemoteDescription(offer("second"))),
        ]
    );
    assert_eq!(c.backlog_len(), 0);
    assert_eq!(c.peerconnection().in_flight(), Some(Operation::SetRemoteDescription(SdpKind::Offer)));
}

#[test]
fn refused_description_ends_only_its_chain() {
    let mut c = client();
    c.on_message(r#"{"type":"offer","sdp":"bad"}"#.to_string());
    c.on_message(candidate_text("k"));
    let actions = c.on_engine_reply(EngineReply::Rejected);
    assert_eq!(
        actions,
        vec![
            Action::Report(Fault::DescriptionRejected),
            Action::Engine(EngineCommand::AddIceCandidate(candidate("k"))),
        ]
    );
    assert_eq!(c.state(), NegotiationState::Idle);
    assert_eq!(c.on_engine_reply(EngineReply::Rejected), vec![Action::Report(Fault::CandidateRejected)]);
    assert_eq!(c.state(), NegotiationState::Idle);
    assert_eq!(
        c.on_message(r#"{"type":"offer","sdp":"good"}"#.to_string()),
        vec![Action::Engine(EngineCommand::SetRemoteDescription(offer("good")))]
    );
}

#[test]
fn refusal_in_the_middle_of_an_answer_keeps_the_state() {
    let mut c = client();
    c.receive(SignalingMessage::Offer(offer("o")));
    c.on_engine_reply(EngineReply::Done);
    assert_eq!(c.on_engine_reply(EngineReply::Rejected), vec![Action::Report(Fault::DescriptionRejected)]);
    assert_eq!(c.state(), NegotiationState::HaveRemoteOffer);
    assert_eq!(c.peerconnection().in_flight(), None);
}

#[test]
fn local_candidate_is_sent_at_once() {
    let mut c = client();
    c.offer();
    assert_eq!(
        c.on_local_candidate(candidate("local")),
        vec![Action::Send(SignalingMessage::IceCandidate(candidate("local")))]
    );
    assert_eq!(c.backlog_len(), 0);
    c.close();
    assert_eq!(c.on_local_candidate(candidate("late")), vec![]);
}

#[test]
fn send_message_fails_when_closed() {
    let mut c = client();
    assert_eq!(
        c.send_message("hi".to_string()),
        Ok(Action::Send(SignalingMessage::Opaque("hi".to_string())))
    );
    c.on_error();
    assert_eq!(c.send_message("hi".to_string()), Err(SendFailed));
}

#[test]
fn closed_client_accepts_nothing() {
    let mut c = client();
    c.on_message(r#"{"type":"offer","sdp":"o"}"#.to_string());
    c.on_message(candidate_text("k"));
    assert_eq!(c.backlog_len(), 1);
    c.close();
    assert_eq!(c.state(), NegotiationState::Closed);
    assert_eq!(c.backlog_len(), 0);
    assert_eq!(c.peerconnection().in_flight(), None);
    assert_eq!(c.on_engine_reply(EngineReply::Done), vec![]);
    assert_eq!(c.on_message(r#"{"type":"offer","sdp":"o"}"#.to_string()), vec![]);
    assert_eq!(c.on_message("text".to_string()), vec![]);
    assert_eq!(c.on_message(r#"{"type":"x"}"#.to_string()), vec![]);
    assert_eq!(c.offer(), vec![]);
    assert_eq!(c.state(), NegotiationState::Closed);
    assert!(!c.offer_outstanding());
}

#[test]
fn offer_message_with_answer_kind_is_still_an_offer() {
    let mut c = client();
    let actions = c.receive(SignalingMessage::Offer(answer("s")));
    assert_eq!(actions, vec![Action::Engine(EngineCommand::SetRemoteDescription(offer("s")))]);
}

#[test]
fn handle_follows_the_methods() {
    let mut c = client();
    assert_eq!(c.handle(Event::OfferRequested), vec![Action::Engine(EngineCommand::CreateOffer)]);
    assert_eq!(
        c.handle(Event::Received(SignalingMessage::Opaque("t".to_string()))),
        vec![Action::Deliver("t".to_string())]
    );
    assert_eq!(
        c.handle(Event::CandidateFound(candidate("l"))),
        vec![Action::Send(SignalingMessage::IceCandidate(candidate("l")))]
    );
    assert_eq!(
        c.handle(Event::EngineReplied(description("o"))),
        vec![Action::Engine(EngineCommand::SetLocalDescription(offer("o")))]
    );
    assert_eq!(c.handle(Event::ChannelFailed), vec![]);
    assert_eq!(c.state(), NegotiationState::Closed);
    let mut c = client();
    assert_eq!(c.handle(Event::ChannelClosed), vec![]);
    assert_eq!(c.state(), NegotiationState::Closed);
}
