[package]
name = "webrtc_signaling"
version = "0.1.0"
edition = "2021"
publish = false

[dependencies]
serde_json = "1"
js-sys = "0.3"
wasm-bindgen = "0.2"
wasm-bindgen-futures = "0.4"
web-sys = { version = "0.3", features = ["BinaryType", "Document", "Element", "ErrorEvent", "HtmlMediaElement", "HtmlVideoElement", "MediaDevices", "MediaStream", "MediaStreamConstraints", "MediaStreamTrack", "MessageEvent", "Navigator", "RtcConfiguration", "RtcIceCandidate", "RtcIceCandidateInit", "RtcPeerConnection", "RtcPeerConnectionIceEvent", "RtcSdpType", "RtcSessionDescription", "RtcSessionDescriptionInit", "RtcTrackEvent", "WebSocket", "Window", "console"] }
