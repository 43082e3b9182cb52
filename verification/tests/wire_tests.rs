use webrtc_signaling::message::{IceCandidate, SdpKind, SessionDescription, SignalingMessage};
use webrtc_signaling::wire::{
    candidate_from_raw, classify, classify_outcome, decimal, decode, encode, interpret,
    DecodeError, RawCandidate, RawMessage,
};

fn offer(sdp: &str) -> SignalingMessage {
    SignalingMessage::Offer(SessionDescription { kind: SdpKind::Offer, sdp: sdp.to_string() })
}

fn answer(sdp: &str) -> SignalingMessage {
    SignalingMessage::Answer(SessionDescription { kind: SdpKind::Answer, sdp: sdp.to_string() })
}

#[test]
fn decode_offer() {
    assert_eq!(decode(r#"{"type":"offer","sdp":"v=0"}"#), Ok(offer("v=0")));
}

#[test]
fn decode_answer() {
    assert_eq!(decode(r#"{"type":"answer","sdp":"v=0\r\n"}"#), Ok(answer("v=0\r\n")));
}

#[test]
fn decode_reads_escapes_in_sdp() {
    assert_eq!(
        decode(r#"{"sdp":"a=\"x\"\\n","type":"offer"}"#),
        Ok(offer("a=\"x\"\\n"))
    );
}

#[test]
fn decode_full_candidate() {
    let text = r#"{"type":"icecandidate","candidate":{"candidate":"candidate:1 1 UDP 1 10.0.0.1 5000 typ host","sdpMid":"0","sdpMLineIndex":3}}"#;
    assert_eq!(
        decode(text),
        Ok(SignalingMessage::IceCandidate(IceCandidate {
            candidate: "candidate:1 1 UDP 1 10.0.0.1 5000 typ host".to_string(),
            sdp_mid: Some("0".to_string()),
            sdp_m_line_index: Some(3),
        }))
    );
}

#[test]
fn decode_candidate_without_optional_members() {
    let text = r#"{"type":"icecandidate","candidate":{"candidate":"candidate:1"}}"#;
    assert_eq!(
        decode(text),
        Ok(SignalingMessage::IceCandidate(IceCandidate {
            candidate: "candidate:1".to_string(),
            sdp_mid: None,
            sdp_m_line_index: None,
        }))
    );
}

#[test]
fn decode_candidate_with_null_members() {
    let text = r#"{"type":"icecandidate","candidate":{"candidate":"c","sdpMid":null,"sdpMLineIndex":null}}"#;
    assert_eq!(
        decode(text),
        Ok(SignalingMessage::IceCandidate(IceCandidate {
            candidate: "c".to_string(),
            sdp_mid: None,
            sdp_m_line_index: None,
        }))
    );
}

#[test]
fn decode_candidate_with_members_of_another_type() {
    let text = r#"{"type":"icecandidate","candidate":{"candidate":"c","sdpMid":7,"sdpMLineIndex":"1"}}"#;
    assert_eq!(
        decode(text),
        Ok(SignalingMessage::IceCandidate(IceCandidate {
            candidate: "c".to_string(),
            sdp_mid: None,
            sdp_m_line_index: None,
        }))
    );
}

#[test]
fn decode_candidate_without_line_is_empty_line() {
    let text = r#"{"type":"icecandidate","candidate":{"sdpMid":"audio"}}"#;
    assert_eq!(
        decode(text),
        Ok(SignalingMessage::IceCandidate(IceCandidate {
            candidate: String::new(),
            sdp_mid: Some("audio".to_string()),
            sdp_m_line_index: None,
        }))
    );
}

#[test]
fn decode_candidate_index_keeps_low_sixteen_bits() {
    let text = r#"{"type":"icecandidate","candidate":{"candidate":"c","sdpMLineIndex":70000}}"#;
    match decode(text) {
        Ok(SignalingMessage::IceCandidate(c)) => assert_eq!(c.sdp_m_line_index, Some(4464)),
        other => panic!("unexpected {:?}", other),
    }
    let text = r#"{"type":"icecandidate","candidate":{"candidate":"c","sdpMLineIndex":65535}}"#;
    match decode(text) {
        Ok(SignalingMessage::IceCandidate(c)) => assert_eq!(c.sdp_m_line_index, Some(65535)),
        other => panic!("unexpected {:?}", other),
    }
}

#[test]
fn decode_negative_index_is_absent() {
    let text = r#"{"type":"icecandidate","candidate":{"candidate":"c","sdpMLineIndex":-1}}"#;
    match decode(text) {
        Ok(SignalingMessage::IceCandidate(c)) => assert_eq!(c.sdp_m_line_index, None),
        other => panic!("unexpected {:?}", other),
    }
}

#[test]
fn decode_candidate_message_without_candidate_is_malformed() {
    assert_eq!(decode(r#"{"type":"icecandidate"}"#), Err(DecodeError::MalformedMessage));
}

#[test]
fn decode_offer_without_sdp_is_malformed() {
    assert_eq!(decode(r#"{"type":"offer"}"#), Err(DecodeError::MalformedMessage));
    assert_eq!(decode(r#"{"type":"answer","sdp":5}"#), Err(DecodeError::MalformedMessage));
}

#[test]
fn decode_non_json_is_malformed() {
    assert_eq!(decode("hello world"), Err(DecodeError::MalformedMessage));
    assert_eq!(decode(""), Err(DecodeError::MalformedMessage));
    assert_eq!(decode(r#"{"type":"offer","sdp":"x"} trailing"#), Err(DecodeError::MalformedMessage));
}

#[test]
fn decode_json_without_string_type_is_malformed() {
    assert_eq!(decode("42"), Err(DecodeError::MalformedMessage));
    assert_eq!(decode(r#"{"kind":"offer"}"#), Err(DecodeError::MalformedMessage));
    assert_eq!(decode(r#"{"type":1,"sdp":"x"}"#), Err(DecodeError::MalformedMessage));
    assert_eq!(decode(r#"["type","offer"]"#), Err(DecodeError::MalformedMessage));
}

#[test]
fn decode_unknown_type_is_unrecognized() {
    assert_eq!(decode(r#"{"type":"bye"}"#), Err(DecodeError::UnrecognizedKind));
    assert_eq!(decode(r#"{"type":"Offer","sdp":"x"}"#), Err(DecodeError::UnrecognizedKind));
    assert_eq!(decode(r#"{"type":""}"#), Err(DecodeError::UnrecognizedKind));
}

#[test]
fn interpret_given_members() {
    let raw = RawMessage { kind: Some("offer".to_string()), sdp: Some("s".to_string()), candidate: None };
    assert_eq!(interpret(raw), Ok(offer("s")));
    let raw = RawMessage { kind: Some("answer".to_string()), sdp: Some("s".to_string()), candidate: None };
    assert_eq!(interpret(raw), Ok(answer("s")));
    let raw = RawMessage { kind: None, sdp: Some("s".to_string()), candidate: None };
    assert_eq!(interpret(raw), Err(DecodeError::MalformedMessage));
    let raw = RawMessage { kind: Some("offer".to_string()), sdp: None, candidate: None };
    assert_eq!(interpret(raw), Err(DecodeError::MalformedMessage));
    let raw = RawMessage { kind: Some("icecandidate".to_string()), sdp: None, candidate: None };
    assert_eq!(interpret(raw), Err(DecodeError::MalformedMessage));
    let raw = RawMessage { kind: Some("hello".to_string()), sdp: Some("s".to_string()), candidate: None };
    assert_eq!(interpret(raw), Err(DecodeError::UnrecognizedKind));
}

#[test]
fn interpret_candidate_members() {
    let raw = RawMessage {
        kind: Some("icecandidate".to_string()),
        sdp: None,
        candidate: Some(RawCandidate {
            candidate: Some("line".to_string()),
            sdp_mid: None,
            sdp_m_line_index: Some(65536 + 9),
        }),
    };
    assert_eq!(
        interpret(raw),
        Ok(SignalingMessage::IceCandidate(IceCandidate {
            candidate: "line".to_string(),
            sdp_mid: None,
            sdp_m_line_index: Some(9),
        }))
    );
}

#[test]
fn candidate_from_raw_members() {
    let c = candidate_from_raw(RawCandidate { candidate: None, sdp_mid: None, sdp_m_line_index: None });
    assert_eq!(c, IceCandidate { candidate: String::new(), sdp_mid: None, sdp_m_line_index: None });
    let c = candidate_from_raw(RawCandidate {
        candidate: Some("x".to_string()),
        sdp_mid: Some("m".to_string()),
        sdp_m_line_index: Some(u64::MAX),
    });
    assert_eq!(
        c,
        IceCandidate { candidate: "x".to_string(), sdp_mid: Some("m".to_string()), sdp_m_line_index: Some(65535) }
    );
}

#[test]
fn classify_passes_malformed_payloads_through() {
    assert_eq!(classify("not json".to_string()), Some(SignalingMessage::Opaque("not json".to_string())));
    assert_eq!(
        classify(r#"{"type":"offer"}"#.to_string()),
        Some(SignalingMessage::Opaque(r#"{"type":"offer"}"#.to_string()))
    );
    assert_eq!(classify("{\"a\": 1}".to_string()), Some(SignalingMessage::Opaque("{\"a\": 1}".to_string())));
}

#[test]
fn classify_keeps_non_ascii_text_unchanged() {
    let text = "h\u{e9}llo \u{1F600} \u{0}\n\ttail ".to_string();
    assert_eq!(classify(text.clone()), Some(SignalingMessage::Opaque(text)));
}

#[test]
fn classify_ignores_unrecognized_kind() {
    assert_eq!(classify(r#"{"type":"ping"}"#.to_string()), None);
}

#[test]
fn classify_hands_on_negotiation_messages() {
    assert_eq!(classify(r#"{"type":"offer","sdp":"s"}"#.to_string()), Some(offer("s")));
}

#[test]
fn classify_outcome_cases() {
    assert_eq!(classify_outcome("t".to_string(), Ok(answer("s"))), Some(answer("s")));
    assert_eq!(
        classify_outcome("t".to_string(), Err(DecodeError::MalformedMessage)),
        Some(SignalingMessage::Opaque("t".to_string()))
    );
    assert_eq!(classify_outcome("t".to_string(), Err(DecodeError::UnrecognizedKind)), None);
}

#[test]
fn decimal_numerals() {
    assert_eq!(decimal(0), "0");
    assert_eq!(decimal(7), "7");
    assert_eq!(decimal(10), "10");
    assert_eq!(decimal(109), "109");
    assert_eq!(decimal(4464), "4464");
    assert_eq!(decimal(65535), "65535");
}

#[test]
fn encode_offer_and_answer() {
    assert_eq!(encode(&offer("v=0")), r#"{"type":"offer","sdp":"v=0"}"#);
    assert_eq!(encode(&answer("v=0")), r#"{"type":"answer","sdp":"v=0"}"#);
}

#[test]
fn encode_escapes_text() {
    assert_eq!(encode(&offer("a\"b\\c\r\n")), r#"{"type":"offer","sdp":"a\"b\\c\r\n"}"#);
    assert_eq!(encode(&offer("")), r#"{"type":"offer","sdp":""}"#);
}

#[test]
fn encode_candidate() {
    let c = SignalingMessage::IceCandidate(IceCandidate {
        candidate: "candidate:1".to_string(),
        sdp_mid: Some("0".to_string()),
        sdp_m_line_index: Some(12),
    });
    assert_eq!(
        encode(&c),
        r#"{"type":"icecandidate","candidate":{"candidate":"candidate:1","sdpMid":"0","sdpMLineIndex":12}}"#
    );
    let c = SignalingMessage::IceCandidate(IceCandidate {
        candidate: "candidate:1".to_string(),
        sdp_mid: None,
        sdp_m_line_index: None,
    });
    assert_eq!(
        encode(&c),
        r#"{"type":"icecandidate","candidate":{"candidate":"candidate:1","sdpMid":null,"sdpMLineIndex":null}}"#
    );
}

#[test]
fn encode_opaque_is_the_payload() {
    assert_eq!(encode(&SignalingMessage::Opaque("any text {".to_string())), "any text {");
}

#[test]
fn encode_then_decode_gives_the_message_back() {
    let messages = vec![
        offer("v=0\r\no=- 46117314 2 IN IP4 127.0.0.1\r\ns=-\r\n"),
        answer("line \"quoted\" \\ back\u{7f}\u{1}\ttab \u{e9}\u{1F600}"),
        SignalingMessage::IceCandidate(IceCandidate {
            candidate: "candidate:842163049 1 udp 1677729535 1.2.3.4 46154 typ srflx".to_string(),
            sdp_mid: Some("video".to_string()),
            sdp_m_line_index: Some(65535),
        }),
        SignalingMessage::IceCandidate(IceCandidate {
            candidate: String::new(),
            sdp_mid: None,
            sdp_m_line_index: Some(0),
        }),
    ];
    for m in messages {
        assert_eq!(decode(&encode(&m)), Ok(m));
    }
}

#[test]
fn decode_agrees_with_serde_json_on_members() {
    let text = r#"{"type":"offer","sdp":"A\n","extra":[1,2,{"type":"answer"}]}"#;
    let value = serde_json::from_str::<serde_json::Value>(text).unwrap();
    let sdp = value.get("sdp").and_then(|v| v.as_str()).unwrap().to_string();
    assert_eq!(sdp, "A\n");
    assert_eq!(decode(text), Ok(offer(&sdp)));
}
