//! Outbound requests and the chunk-stream metadata that each kind needs.
use vstd::prelude::*;

verus! {

/// The byte buffer of the `bytes` crate, carried through unread: media
/// payloads are opaque to the session.
#[verifier::external_type_specification]
#[verifier::external_body]
pub struct ExBytesMut(bytes::BytesMut);

/// Chunk stream for protocol control messages.
pub const CSID_PROTOCOL_CONTROL: u32 = 2;

/// Chunk stream for command messages.
pub const CSID_COMMAND: u32 = 3;

/// Chunk stream for audio data.
pub const CSID_AUDIO: u32 = 4;

/// Chunk stream for video data.
pub const CSID_VIDEO: u32 = 6;

/// Message type of a set-chunk-size control message.
pub const MSG_TYPE_SET_CHUNK_SIZE: u8 = 1;

/// Message type of a user control event (set-buffer-length is one).
pub const MSG_TYPE_USER_CONTROL_EVENT: u8 = 4;

/// Message type of a window-acknowledgement-size control message.
pub const MSG_TYPE_WINDOW_ACKNOWLEDGEMENT_SIZE: u8 = 5;

/// Message type of audio data.
pub const MSG_TYPE_AUDIO: u8 = 8;

/// Message type of video data.
pub const MSG_TYPE_VIDEO: u8 = 9;

/// Message type of a command encoded in the AMF0 format.
pub const MSG_TYPE_COMMAND_AMF0: u8 = 20;

/// What is to be sent, in semantic terms; the encoders turn it into bytes.
#[derive(Debug)]
pub enum Request {
    Connect { transaction_id: u64, app_name: String },
    CreateStream { transaction_id: u64 },
    DeleteStream { transaction_id: u64, stream_id: u32 },
    Publish { transaction_id: u64, stream_name: String, stream_type: String },
    Play {
        transaction_id: u64,
        stream_name: String,
        start: i64,
        duration: i64,
        reset: bool,
    },
    SetChunkSize { chunk_size: u32 },
    WindowAcknowledgementSize { window_size: u32 },
    SetBufferLength { stream_id: u32, ms: u32 },
    Audio { data: bytes::BytesMut },
    Video { data: bytes::BytesMut },
}

/// `Request` with its strings seen as character sequences.
pub enum RequestModel {
    Connect { transaction_id: u64, app_name: Seq<char> },
    CreateStream { transaction_id: u64 },
    DeleteStream { transaction_id: u64, stream_id: u32 },
    Publish { transaction_id: u64, stream_name: Seq<char>, stream_type: Seq<char> },
    Play {
        transaction_id: u64,
        stream_name: Seq<char>,
        start: i64,
        duration: i64,
        reset: bool,
    },
    SetChunkSize { chunk_size: u32 },
    WindowAcknowledgementSize { window_size: u32 },
    SetBufferLength { stream_id: u32, ms: u32 },
    Audio { data: bytes::BytesMut },
    Video { data: bytes::BytesMut },
}

impl View for Request {
    type V = RequestModel;

    open spec fn view(&self) -> RequestModel {
        match *self {
            Request::Connect { transaction_id, app_name } => RequestModel::Connect {
                transaction_id,
                app_name: app_name@,
            },
            Request::CreateStream { transaction_id } => RequestModel::CreateStream {
                transaction_id,
            },
            Request::DeleteStream { transaction_id, stream_id } => RequestModel::DeleteStream {
                transaction_id,
                stream_id,
            },
            Request::Publish { transaction_id, stream_name, stream_type } => RequestModel::Publish {
                transaction_id,
                stream_name: stream_name@,
                stream_type: stream_type@,
            },
            Request::Play { transaction_id, stream_name, start, duration, reset } =>
                RequestModel::Play {
                transaction_id,
                stream_name: stream_name@,
                start,
                duration,
                reset,
            },
            Request::SetChunkSize { chunk_size } => RequestModel::SetChunkSize { chunk_size },
            Request::WindowAcknowledgementSize { window_size } =>
                RequestModel::WindowAcknowledgementSize { window_size },
            Request::SetBufferLength { stream_id, ms } => RequestModel::SetBufferLength {
                stream_id,
                ms,
            },
            Request::Audio { data } => RequestModel::Audio { data },
            Request::Video { data } => RequestModel::Video { data },
        }
    }
}

/// A request with the chunk-stream id, message type and timestamp under
/// which the chunk transport is to send it.
#[derive(Debug)]
pub struct OutboundMessage {
    pub csid: u32,
    pub msg_type_id: u8,
    pub timestamp: u32,
    pub request: Request,
}

pub struct OutboundModel {
    pub csid: u32,
    pub msg_type_id: u8,
    pub timestamp: u32,
    pub request: RequestModel,
}

impl View for OutboundMessage {
    type V = OutboundModel;

    open spec fn view(&self) -> OutboundModel {
        OutboundModel {
            csid: self.csid,
            msg_type_id: self.msg_type_id,
            timestamp: self.timestamp,
            request: self.request@,
        }
    }
}

/// The chunk stream that carries a request of this kind.
pub open spec fn csid_of(r: RequestModel) -> u32 {
    match r {
        RequestModel::SetChunkSize { .. } => CSID_PROTOCOL_CONTROL,
        RequestModel::WindowAcknowledgementSize { .. } => CSID_PROTOCOL_CONTROL,
        RequestModel::SetBufferLength { .. } => CSID_PROTOCOL_CONTROL,
        RequestModel::Audio { .. } => CSID_AUDIO,
        RequestModel::Video { .. } => CSID_VIDEO,
        _ => CSID_COMMAND,
    }
}

/// The message type of a request of this kind.
pub open spec fn msg_type_of(r: RequestModel) -> u8 {
    match r {
        RequestModel::SetChunkSize { .. } => MSG_TYPE_SET_CHUNK_SIZE,
        RequestModel::WindowAcknowledgementSize { .. } => MSG_TYPE_WINDOW_ACKNOWLEDGEMENT_SIZE,
        RequestModel::SetBufferLength { .. } => MSG_TYPE_USER_CONTROL_EVENT,
        RequestModel::Audio { .. } => MSG_TYPE_AUDIO,
        RequestModel::Video { .. } => MSG_TYPE_VIDEO,
        _ => MSG_TYPE_COMMAND_AMF0,
    }
}

/// The message that carries request `r`: its kind's chunk stream and
/// message type, at timestamp zero.
pub open spec fn framed(r: RequestModel) -> OutboundModel {
    OutboundModel { csid: csid_of(r), msg_type_id: msg_type_of(r), timestamp: 0, request: r }
}

impl OutboundMessage {
    /// Wraps a request with the metadata that its kind requires.
    pub fn frame(request: Request) -> (r: OutboundMessage)
        ensures
            r@ == framed(request@),
    {
        let (csid, msg_type_id): (u32, u8) = match &request {
            Request::SetChunkSize { .. } => (CSID_PROTOCOL_CONTROL, MSG_TYPE_SET_CHUNK_SIZE),
            Request::WindowAcknowledgementSize { .. } => (
                CSID_PROTOCOL_CONTROL,
                MSG_TYPE_WINDOW_ACKNOWLEDGEMENT_SIZE,
            ),
            Request::SetBufferLength { .. } => (CSID_PROTOCOL_CONTROL, MSG_TYPE_USER_CONTROL_EVENT),
            Request::Audio { .. } => (CSID_AUDIO, MSG_TYPE_AUDIO),
            Request::Video { .. } => (CSID_VIDEO, MSG_TYPE_VIDEO),
            _ => (CSID_COMMAND, MSG_TYPE_COMMAND_AMF0),
        };
        OutboundMessage { csid, msg_type_id, timestamp: 0, request }
    }
}

} // verus!
