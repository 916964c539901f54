//! Session-negotiation logic for a manual-signaling peer-to-peer call.
//!
//! One side (the initiator) acquires local media, builds a connection
//! offer and waits for ICE gathering to complete; the resulting
//! signaling text is exchanged out of band (copy/paste).  The other
//! side (the responder) consumes that text, builds an answer, and both
//! sessions end connected.  The browser-supplied connection and media
//! primitives are external collaborators: every suspendable platform
//! call is driven by the surrounding event loop, which performs the
//! requested action and feeds the outcome back as an event, while the
//! decisions themselves live here and are verified.

pub mod codec;
pub mod media;
pub mod negotiator;
pub mod session;
