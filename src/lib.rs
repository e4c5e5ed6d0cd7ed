//! Client-side session engine for an RTMP-family streaming connection.
//!
//! The engine is a pure state machine: it is handed decoded inbound messages
//! and hands back the outbound messages to send, each with the chunk-stream
//! metadata that its kind requires. Handshake bytes, chunking, value encoding
//! and the network itself are left to the caller.
use vstd::prelude::*;

pub mod amf0;
pub mod outbound;
pub mod message;
pub mod session;
pub mod laws;
