//! Decoded inbound protocol messages.
use vstd::prelude::*;
use crate::amf0::Amf0Value;

verus! {

/// One protocol message, as the message decoder hands it over.
#[derive(Debug)]
pub enum DecodedMessage {
    Amf0Command {
        command_name: Amf0Value,
        transaction_id: Amf0Value,
        command_object: Amf0Value,
        others: Vec<Amf0Value>,
    },
    SetPeerBandwidth { window_size: u32, limit_type: u8 },
    SetChunkSize { chunk_size: u32 },
    AudioData { data: bytes::BytesMut },
    VideoData { data: bytes::BytesMut },
    /// Any other control or event message; the session does not react to it.
    Other,
}

/// What one turn of the read loop produced.
#[derive(Debug)]
pub enum Inbound {
    /// The handshake negotiator reported that it has finished.
    HandshakeFinished,
    /// A complete message was reassembled and decoded.
    Message(DecodedMessage),
    /// The bytes read did not complete a message.
    Incomplete,
}

} // verus!
