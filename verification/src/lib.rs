//! Verified negotiation core for a WebRTC signaling client.
//!
//! The crate is written without I/O: every entry point takes plain values and
//! returns the actions that the caller has to perform on the socket and on the
//! peer-connection engine.
//!
//! - [`message`]: the data that the peers exchange.
//! - [`wire`]: the JSON wire format, decoding and encoding.
//! - [`json`]: the calls into `serde_json` that `wire` rests on.
//! - [`webrtc_peer_connection`]: the controller of the engine.
//! - [`client`]: the negotiation coordinator.
//! - [`laws`]: what is proved of the coordinator.

pub mod json;
pub mod message;
pub mod wire;
pub mod webrtc_peer_connection;
pub mod client;
pub mod laws;
