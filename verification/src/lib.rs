//! The decisions of a full-mesh WebRTC benchmark: the signaling server's table of peers and
//! what it does with each message, and a peer's negotiation, media and statistics.
//!
//! Sockets, media engines and clocks stay outside. Each part here takes what they produced as
//! plain values and says what is to be done next.
pub mod forward;
pub mod frame;
pub mod handler;
pub mod ids;
pub mod media;
pub mod mesh;
pub mod message;
pub mod peer;
pub mod registry;
pub mod session;
pub mod tables;
pub mod text;
