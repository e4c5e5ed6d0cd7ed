//! The client session: its phases, the dispatch of inbound messages, and the
//! requests that each phase issues.
use vstd::prelude::*;
use crate::amf0::{Amf0Property, Amf0Value, is_string, is_whole_number, string_equals};
use crate::message::{DecodedMessage, Inbound};
use crate::outbound::{OutboundMessage, OutboundModel, Request, RequestModel, framed};

verus! {

/// Transaction id reserved for the connect request.
pub const TRANSACTION_ID_CONNECT: u64 = 1;

/// Transaction id reserved for the create-stream request.
pub const TRANSACTION_ID_CREATE_STREAM: u64 = 2;

/// The maximum chunk size that the protocol starts with.
pub const DEFAULT_CHUNK_SIZE: u32 = 128;

/// The chunk size that this client announces for its own messages.
pub const CHUNK_SIZE: u32 = 4096;

/// The acknowledgement window that the client answers a peer bandwidth
/// message with, whatever window the peer asked for.
pub const ACKNOWLEDGEMENT_WINDOW_SIZE: u32 = 250000;

/// Where the session stands in the handshake, connect, create-stream,
/// play or publish sequence.
#[derive(Debug, Clone, Copy, PartialEq, Eq, Structural)]
pub enum Phase {
    Handshaking,
    Connecting,
    CreatingStream,
    Playing,
    Publishing,
}

/// Whether the session receives a stream or sends one; fixed at construction.
#[derive(Debug, Clone, Copy, PartialEq, Eq, Structural)]
pub enum Role {
    Play,
    Publish,
}

/// Why a session stops or a message was refused.
#[derive(Debug, Clone, Copy, PartialEq, Eq, Structural)]
pub enum SessionError {
    /// The handshake bytes were malformed or unexpected.
    HandshakeFailure,
    /// Reading from or writing to the connection failed.
    TransportFailure,
    /// A message could not be framed or decoded.
    DecodeFailure,
    /// A command lacked an argument of the shape that it requires.
    ArgumentShapeMismatch,
}

/// The phase that a session of role `role` streams in.
pub open spec fn streaming_phase(role: Role) -> Phase {
    match role {
        Role::Play => Phase::Playing,
        Role::Publish => Phase::Publishing,
    }
}

pub open spec fn result_name() -> Seq<char> {
    "_result"@
}

pub open spec fn status_name() -> Seq<char> {
    "onStatus"@
}

/// The phase after a command named `name` with transaction id `tid`: a
/// "_result" reply advances the phase whose request carries that id, and
/// nothing else moves it.
pub open spec fn command_phase(phase: Phase, role: Role, name: Amf0Value, tid: Amf0Value) -> Phase {
    if is_string(name, result_name()) {
        if is_whole_number(tid, TRANSACTION_ID_CONNECT) && phase == Phase::Connecting {
            Phase::CreatingStream
        } else if is_whole_number(tid, TRANSACTION_ID_CREATE_STREAM) && phase
            == Phase::CreatingStream {
            streaming_phase(role)
        } else {
            phase
        }
    } else {
        phase
    }
}

/// What a session holds, seen mathematically.
pub struct SessionState {
    pub phase: Phase,
    pub role: Role,
    pub stream_name: Seq<char>,
    /// The largest chunk that the reassembler is to accept.
    pub max_chunk_size: u32,
}

/// The state after message `msg` in state `s`.
pub open spec fn message_step(s: SessionState, msg: DecodedMessage) -> SessionState {
    match msg {
        DecodedMessage::Amf0Command { command_name, transaction_id, .. } => SessionState {
            phase: command_phase(s.phase, s.role, command_name, transaction_id),
            ..s
        },
        DecodedMessage::SetChunkSize { chunk_size } => SessionState {
            max_chunk_size: chunk_size,
            ..s
        },
        _ => s,
    }
}

/// The trailing arguments of a status command start with an object.
pub open spec fn status_shape_ok(others: Seq<Amf0Value>) -> bool {
    others.len() > 0 && others[0] is Object
}

/// `msg` is a status command without its object argument.
pub open spec fn message_fails(msg: DecodedMessage) -> bool {
    match msg {
        DecodedMessage::Amf0Command { command_name, others, .. } => is_string(
            command_name,
            status_name(),
        ) && !status_shape_ok(others@),
        _ => false,
    }
}

/// The acknowledgement-window message sent in answer to a peer bandwidth message.
pub open spec fn window_ack_reply() -> OutboundModel {
    framed(RequestModel::WindowAcknowledgementSize { window_size: ACKNOWLEDGEMENT_WINDOW_SIZE })
}

/// The message sent straight back in answer to `msg`, if any.
pub open spec fn message_reply(msg: DecodedMessage) -> Option<OutboundModel> {
    match msg {
        DecodedMessage::SetPeerBandwidth { .. } => Some(window_ack_reply()),
        _ => None,
    }
}

/// The state after inbound event `e` in state `s`.
pub open spec fn inbound_step(s: SessionState, e: Inbound) -> SessionState {
    match e {
        Inbound::HandshakeFinished => if s.phase == Phase::Handshaking {
            SessionState { phase: Phase::Connecting, ..s }
        } else {
            s
        },
        Inbound::Message(m) => message_step(s, m),
        Inbound::Incomplete => s,
    }
}

/// The request that a session in state `s` issues on each turn.
pub open spec fn phase_request(s: SessionState) -> Option<OutboundModel> {
    match s.phase {
        Phase::Handshaking => None,
        Phase::Connecting => Some(
            framed(
                RequestModel::Connect { transaction_id: TRANSACTION_ID_CONNECT, app_name: "app"@ },
            ),
        ),
        Phase::CreatingStream => Some(
            framed(RequestModel::CreateStream { transaction_id: TRANSACTION_ID_CREATE_STREAM }),
        ),
        Phase::Playing => Some(
            framed(
                RequestModel::Play {
                    transaction_id: 0,
                    stream_name: s.stream_name,
                    start: 0,
                    duration: 0,
                    reset: false,
                },
            ),
        ),
        Phase::Publishing => Some(
            framed(
                RequestModel::Publish {
                    transaction_id: 0,
                    stream_name: s.stream_name,
                    stream_type: "live"@,
                },
            ),
        ),
    }
}

pub open spec fn option_seq(o: Option<OutboundModel>) -> Seq<OutboundModel> {
    match o {
        Some(m) => seq![m],
        None => seq![],
    }
}

pub open spec fn option_model(o: Option<OutboundMessage>) -> Option<OutboundModel> {
    match o {
        Some(m) => Some(m@),
        None => None,
    }
}

/// `inbound` ends the session with an error.
pub open spec fn inbound_fails(e: Inbound) -> bool {
    match e {
        Inbound::Message(m) => message_fails(m),
        _ => false,
    }
}

/// What is sent after event `e` in state `s`: the reply that `e` calls
/// for, then the request of the phase reached.
pub open spec fn inbound_output(s: SessionState, e: Inbound) -> Seq<OutboundModel> {
    let reply = match e {
        Inbound::Message(m) => message_reply(m),
        _ => None,
    };
    option_seq(reply) + option_seq(phase_request(inbound_step(s, e)))
}

pub open spec fn models_of(v: Seq<OutboundMessage>) -> Seq<OutboundModel> {
    v.map_values(|m: OutboundMessage| m@)
}

/// The state machine of one client connection.
pub struct ClientSession {
    phase: Phase,
    role: Role,
    stream_name: String,
    max_chunk_size: u32,
}

impl View for ClientSession {
    type V = SessionState;

    closed spec fn view(&self) -> SessionState {
        SessionState {
            phase: self.phase,
            role: self.role,
            stream_name: self.stream_name@,
            max_chunk_size: self.max_chunk_size,
        }
    }
}

impl ClientSession {
    /// A session that has yet to shake hands.
    pub fn new(role: Role, stream_name: String) -> (r: ClientSession)
        ensures
            r@ == (SessionState {
                phase: Phase::Handshaking,
                role,
                stream_name: stream_name@,
                max_chunk_size: DEFAULT_CHUNK_SIZE,
            }),
    {
        ClientSession { phase: Phase::Handshaking, role, stream_name, max_chunk_size: DEFAULT_CHUNK_SIZE }
    }

    pub fn phase(&self) -> (r: Phase)
        ensures
            r == self@.phase,
    {
        self.phase
    }

    pub fn role(&self) -> (r: Role)
        ensures
            r == self@.role,
    {
        self.role
    }

    pub fn stream_name(&self) -> (r: &String)
        ensures
            r@ == self@.stream_name,
    {
        &self.stream_name
    }

    pub fn max_chunk_size(&self) -> (r: u32)
        ensures
            r == self@.max_chunk_size,
    {
        self.max_chunk_size
    }
}

impl ClientSession {
    /// Handles one command message. A "_result" reply advances the phase
    /// whose request carries its transaction id; a reply for any other id,
    /// or for a phase already left, changes nothing. "onStatus" takes its
    /// first trailing argument, which must be an object.
    pub fn process_amf0_command_message(
        &mut self,
        command_name: &Amf0Value,
        transaction_id: &Amf0Value,
        command_object: &Amf0Value,
        others: &mut Vec<Amf0Value>,
    ) -> (r: Result<(), SessionError>)
        ensures
            final(self)@ == (SessionState {
                phase: command_phase(old(self)@.phase, old(self)@.role, *command_name, *transaction_id),
                ..old(self)@
            }),
            r is Err <==> is_string(*command_name, status_name()) && !status_shape_ok(old(others)@),
            r is Err ==> r == Err::<(), SessionError>(SessionError::ArgumentShapeMismatch),
            final(others)@ == if is_string(*command_name, status_name()) && old(others)@.len() > 0 {
                old(others)@.drop_first()
            } else {
                old(others)@
            },
    {
        proof {
            reveal_strlit("_result");
            reveal_strlit("_error");
            reveal_strlit("onStatus");
            assert(result_name().len() != status_name().len());
            assert("_error"@.len() != status_name().len());
        }
        if string_equals(command_name, "_result") {
            match transaction_id {
                Amf0Value::WholeNumber(TRANSACTION_ID_CONNECT) => {
                    self.on_result_connect()?;
                },
                Amf0Value::WholeNumber(TRANSACTION_ID_CREATE_STREAM) => {
                    self.on_result_create_stream()?;
                },
                _ => {},
            }
        } else if string_equals(command_name, "_error") {
            self.on_error()?;
        } else if string_equals(command_name, "onStatus") {
            if others.len() == 0 {
                return Err(SessionError::ArgumentShapeMismatch);
            }
            let first = others.remove(0);
            assert(others@ =~= old(others)@.drop_first());
            match first {
                Amf0Value::Object(obj) => self.on_status(&obj)?,
                _ => {
                    return Err(SessionError::ArgumentShapeMismatch);
                },
            }
        }
        Ok(())
    }

    /// Handles the reply to the connect request.
    pub fn on_result_connect(&mut self) -> (r: Result<(), SessionError>)
        ensures
            r is Ok,
            final(self)@ == (SessionState {
                phase: if old(self)@.phase == Phase::Connecting {
                    Phase::CreatingStream
                } else {
                    old(self)@.phase
                },
                ..old(self)@
            }),
    {
        if self.phase == Phase::Connecting {
            self.phase = Phase::CreatingStream;
        }
        Ok(())
    }

    /// Handles the reply to the create-stream request: the session goes on
    /// to play or to publish, as its role says.
    pub fn on_result_create_stream(&mut self) -> (r: Result<(), SessionError>)
        ensures
            r is Ok,
            final(self)@ == (SessionState {
                phase: if old(self)@.phase == Phase::CreatingStream {
                    streaming_phase(old(self)@.role)
                } else {
                    old(self)@.phase
                },
                ..old(self)@
            }),
    {
        if self.phase == Phase::CreatingStream {
            match self.role {
                Role::Play => {
                    self.phase = Phase::Playing;
                },
                Role::Publish => {
                    self.phase = Phase::Publishing;
                },
            }
        }
        Ok(())
    }

    /// Takes the peer's chunk size as the largest that inbound chunks may have.
    pub fn on_set_chunk_size(&mut self, chunk_size: u32) -> (r: Result<(), SessionError>)
        ensures
            r is Ok,
            final(self)@ == (SessionState { max_chunk_size: chunk_size, ..old(self)@ }),
    {
        self.max_chunk_size = chunk_size;
        Ok(())
    }

    /// The answer to a peer bandwidth message: the fixed acknowledgement window.
    pub fn on_set_peer_bandwidth(&self) -> (r: OutboundMessage)
        ensures
            r@ == window_ack_reply(),
    {
        self.send_window_acknowledgement_size(ACKNOWLEDGEMENT_WINDOW_SIZE)
    }

    /// An error reply from the peer: recoverable, nothing changes.
    pub fn on_error(&mut self) -> (r: Result<(), SessionError>)
        ensures
            r is Ok,
            final(self)@ == old(self)@,
    {
        Ok(())
    }

    /// A status event from the peer: observed, nothing changes.
    pub fn on_status(&mut self, obj: &Vec<Amf0Property>) -> (r: Result<(), SessionError>)
        ensures
            r is Ok,
            final(self)@ == old(self)@,
    {
        Ok(())
    }

    /// The connect request, for the application "app".
    pub fn send_connect(&self, transaction_id: u64) -> (r: OutboundMessage)
        ensures
            r@ == framed(RequestModel::Connect { transaction_id, app_name: "app"@ }),
    {
        let app_name = "app".to_owned();
        OutboundMessage::frame(Request::Connect { transaction_id, app_name })
    }

    pub fn send_create_stream(&self, transaction_id: u64) -> (r: OutboundMessage)
        ensures
            r@ == framed(RequestModel::CreateStream { transaction_id }),
    {
        OutboundMessage::frame(Request::CreateStream { transaction_id })
    }

    pub fn send_delete_stream(&self, transaction_id: u64, stream_id: u32) -> (r: OutboundMessage)
        ensures
            r@ == framed(RequestModel::DeleteStream { transaction_id, stream_id }),
    {
        OutboundMessage::frame(Request::DeleteStream { transaction_id, stream_id })
    }

    pub fn send_publish(&self, transaction_id: u64, stream_name: &String, stream_type: &String) -> (r:
        OutboundMessage)
        ensures
            r@ == framed(
                RequestModel::Publish {
                    transaction_id,
                    stream_name: stream_name@,
                    stream_type: stream_type@,
                },
            ),
    {
        OutboundMessage::frame(
            Request::Publish {
                transaction_id,
                stream_name: stream_name.clone(),
                stream_type: stream_type.clone(),
            },
        )
    }

    pub fn send_play(
        &self,
        transaction_id: u64,
        stream_name: &String,
        start: i64,
        duration: i64,
        reset: bool,
    ) -> (r: OutboundMessage)
        ensures
            r@ == framed(
                RequestModel::Play {
                    transaction_id,
                    stream_name: stream_name@,
                    start,
                    duration,
                    reset,
                },
            ),
    {
        OutboundMessage::frame(
            Request::Play { transaction_id, stream_name: stream_name.clone(), start, duration, reset },
        )
    }

    /// Announces this client's own chunk size.
    pub fn send_set_chunk_size(&self) -> (r: OutboundMessage)
        ensures
            r@ == framed(RequestModel::SetChunkSize { chunk_size: CHUNK_SIZE }),
    {
        OutboundMessage::frame(Request::SetChunkSize { chunk_size: CHUNK_SIZE })
    }

    pub fn send_window_acknowledgement_size(&self, window_size: u32) -> (r: OutboundMessage)
        ensures
            r@ == framed(RequestModel::WindowAcknowledgementSize { window_size }),
    {
        OutboundMessage::frame(Request::WindowAcknowledgementSize { window_size })
    }

    pub fn send_set_buffer_length(&self, stream_id: u32, ms: u32) -> (r: OutboundMessage)
        ensures
            r@ == framed(RequestModel::SetBufferLength { stream_id, ms }),
    {
        OutboundMessage::frame(Request::SetBufferLength { stream_id, ms })
    }

    pub fn send_audio(&self, data: bytes::BytesMut) -> (r: OutboundMessage)
        ensures
            r@ == framed(RequestModel::Audio { data }),
    {
        OutboundMessage::frame(Request::Audio { data })
    }

    pub fn send_video(&self, data: bytes::BytesMut) -> (r: OutboundMessage)
        ensures
            r@ == framed(RequestModel::Video { data }),
    {
        OutboundMessage::frame(Request::Video { data })
    }
}

impl ClientSession {
    /// Dispatches one decoded message, and gives back the message to send
    /// straight back, if the one handled calls for one.
    pub fn process_messages(&mut self, msg: DecodedMessage) -> (r: Result<
        Option<OutboundMessage>,
        SessionError,
    >)
        ensures
            final(self)@ == message_step(old(self)@, msg),
            match r {
                Ok(reply) => !message_fails(msg) && option_model(reply) == message_reply(msg),
                Err(e) => message_fails(msg) && e == SessionError::ArgumentShapeMismatch,
            },
    {
        match msg {
            DecodedMessage::Amf0Command { command_name, transaction_id, command_object, others } => {
                let mut others = others;
                self.process_amf0_command_message(
                    &command_name,
                    &transaction_id,
                    &command_object,
                    &mut others,
                )?;
                Ok(None)
            },
            DecodedMessage::SetPeerBandwidth { .. } => Ok(Some(self.on_set_peer_bandwidth())),
            DecodedMessage::SetChunkSize { chunk_size } => {
                self.on_set_chunk_size(chunk_size)?;
                Ok(None)
            },
            _ => Ok(None),
        }
    }

    /// The handshake negotiator has finished: the session goes on to connect.
    pub fn on_handshake_finished(&mut self)
        ensures
            final(self)@ == inbound_step(old(self)@, Inbound::HandshakeFinished),
    {
        if self.phase == Phase::Handshaking {
            self.phase = Phase::Connecting;
        }
    }

    /// The request that the current phase issues: connect, create-stream,
    /// play or publish; none while the handshake runs.
    pub fn pending_request(&self) -> (r: Option<OutboundMessage>)
        ensures
            option_model(r) == phase_request(self@),
    {
        match self.phase {
            Phase::Handshaking => None,
            Phase::Connecting => Some(self.send_connect(TRANSACTION_ID_CONNECT)),
            Phase::CreatingStream => Some(self.send_create_stream(TRANSACTION_ID_CREATE_STREAM)),
            Phase::Playing => Some(self.send_play(0, &self.stream_name, 0, 0, false)),
            Phase::Publishing => {
                let stream_type = "live".to_owned();
                Some(self.send_publish(0, &self.stream_name, &stream_type))
            },
        }
    }

    /// One turn of the session loop: handles what the last read produced,
    /// and gives back what to send before the next read, in order: the
    /// reply that the inbound message calls for, then the request of the
    /// phase reached.
    pub fn run(&mut self, inbound: Inbound) -> (r: Result<Vec<OutboundMessage>, SessionError>)
        ensures
            final(self)@ == inbound_step(old(self)@, inbound),
            match r {
                Ok(out) => !inbound_fails(inbound) && models_of(out@) == inbound_output(
                    old(self)@,
                    inbound,
                ),
                Err(e) => inbound_fails(inbound) && e == SessionError::ArgumentShapeMismatch,
            },
    {
        let ghost start = self@;
        let ghost event = inbound;
        let mut out: Vec<OutboundMessage> = Vec::new();
        match inbound {
            Inbound::HandshakeFinished => {
                self.on_handshake_finished();
            },
            Inbound::Message(msg) => {
                if let Some(reply) = self.process_messages(msg)? {
                    out.push(reply);
                }
            },
            Inbound::Incomplete => {},
        }
        if let Some(request) = self.pending_request() {
            out.push(request);
        }
        proof {
            assert(models_of(out@) =~= inbound_output(start, event));
        }
        Ok(out)
    }
}

} // verus!
