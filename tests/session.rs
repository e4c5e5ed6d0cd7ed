use bytes::BytesMut;
use rtmp_client::amf0::{string_equals, Amf0Property, Amf0Value};
use rtmp_client::message::{DecodedMessage, Inbound};
use rtmp_client::outbound::{
    OutboundMessage, Request, CSID_AUDIO, CSID_COMMAND, CSID_PROTOCOL_CONTROL, CSID_VIDEO,
    MSG_TYPE_AUDIO, MSG_TYPE_COMMAND_AMF0, MSG_TYPE_SET_CHUNK_SIZE,
    MSG_TYPE_USER_CONTROL_EVENT, MSG_TYPE_VIDEO, MSG_TYPE_WINDOW_ACKNOWLEDGEMENT_SIZE,
};
use rtmp_client::session::{
    ClientSession, Phase, Role, SessionError, ACKNOWLEDGEMENT_WINDOW_SIZE, CHUNK_SIZE,
    DEFAULT_CHUNK_SIZE, TRANSACTION_ID_CONNECT, TRANSACTION_ID_CREATE_STREAM,
};

fn text(s: &str) -> Amf0Value {
    Amf0Value::Utf8String(s.to_string())
}

fn command(name: &str, id: Amf0Value, others: Vec<Amf0Value>) -> DecodedMessage {
    DecodedMessage::Amf0Command {
        command_name: text(name),
        transaction_id: id,
        command_object: Amf0Value::Null,
        others,
    }
}

fn result_reply(id: u64) -> Inbound {
    Inbound::Message(command("_result", Amf0Value::WholeNumber(id), vec![]))
}

fn status_object() -> Amf0Value {
    Amf0Value::Object(vec![Amf0Property {
        key: "code".to_string(),
        value: text("NetStream.Publish.Start"),
    }])
}

fn session_in(role: Role, phase: Phase) -> ClientSession {
    let mut s = ClientSession::new(role, "cam".to_string());
    if phase == Phase::Handshaking {
        return s;
    }
    s.run(Inbound::HandshakeFinished).unwrap();
    if phase == Phase::Connecting {
        return s;
    }
    s.run(result_reply(TRANSACTION_ID_CONNECT)).unwrap();
    if phase == Phase::CreatingStream {
        return s;
    }
    s.run(result_reply(TRANSACTION_ID_CREATE_STREAM)).unwrap();
    s
}

fn expect_command(m: &OutboundMessage) {
    assert_eq!(m.csid, CSID_COMMAND);
    assert_eq!(m.msg_type_id, MSG_TYPE_COMMAND_AMF0);
    assert_eq!(m.timestamp, 0);
}

#[test]
fn new_session_starts_handshaking() {
    let s = ClientSession::new(Role::Play, "movie".to_string());
    assert_eq!(s.phase(), Phase::Handshaking);
    assert_eq!(s.role(), Role::Play);
    assert_eq!(s.stream_name(), "movie");
    assert_eq!(s.max_chunk_size(), DEFAULT_CHUNK_SIZE);
    assert_eq!(DEFAULT_CHUNK_SIZE, 128);
    assert!(s.pending_request().is_none());
}

#[test]
fn handshake_finished_issues_connect() {
    let mut s = ClientSession::new(Role::Play, "movie".to_string());
    let out = s.run(Inbound::HandshakeFinished).unwrap();
    assert_eq!(s.phase(), Phase::Connecting);
    assert_eq!(out.len(), 1);
    expect_command(&out[0]);
    match &out[0].request {
        Request::Connect { transaction_id, app_name } => {
            assert_eq!(*transaction_id, 1);
            assert_eq!(app_name, "app");
        }
        _ => panic!("expected connect"),
    }
}

#[test]
fn incomplete_read_repeats_the_phase_request() {
    let mut s = session_in(Role::Play, Phase::Connecting);
    let out = s.run(Inbound::Incomplete).unwrap();
    assert_eq!(s.phase(), Phase::Connecting);
    assert_eq!(out.len(), 1);
    assert!(matches!(out[0].request, Request::Connect { transaction_id: 1, .. }));
}

#[test]
fn connect_reply_moves_to_create_stream() {
    let mut s = session_in(Role::Play, Phase::Connecting);
    let out = s.run(result_reply(TRANSACTION_ID_CONNECT)).unwrap();
    assert_eq!(s.phase(), Phase::CreatingStream);
    assert_eq!(out.len(), 1);
    expect_command(&out[0]);
    assert!(matches!(out[0].request, Request::CreateStream { transaction_id: 2 }));
}

#[test]
fn play_session_reaches_playing() {
    let mut s = session_in(Role::Play, Phase::CreatingStream);
    let out = s.run(result_reply(TRANSACTION_ID_CREATE_STREAM)).unwrap();
    assert_eq!(s.phase(), Phase::Playing);
    assert_eq!(out.len(), 1);
    expect_command(&out[0]);
    match &out[0].request {
        Request::Play { transaction_id, stream_name, start, duration, reset } => {
            assert_eq!(*transaction_id, 0);
            assert_eq!(stream_name, "cam");
            assert_eq!((*start, *duration, *reset), (0, 0, false));
        }
        _ => panic!("expected play"),
    }
}

#[test]
fn publish_session_end_to_end() {
    let mut s = ClientSession::new(Role::Publish, "cam".to_string());
    s.run(Inbound::HandshakeFinished).unwrap();
    s.run(result_reply(TRANSACTION_ID_CONNECT)).unwrap();
    let out = s.run(result_reply(TRANSACTION_ID_CREATE_STREAM)).unwrap();
    assert_eq!(s.phase(), Phase::Publishing);
    assert_eq!(out.len(), 1);
    expect_command(&out[0]);
    match &out[0].request {
        Request::Publish { transaction_id, stream_name, stream_type } => {
            assert_eq!(*transaction_id, 0);
            assert_eq!(stream_name, "cam");
            assert_eq!(stream_type, "live");
        }
        _ => panic!("expected publish"),
    }
}

#[test]
fn create_stream_reply_before_connect_reply_is_ignored() {
    let mut s = session_in(Role::Publish, Phase::Connecting);
    s.run(result_reply(TRANSACTION_ID_CREATE_STREAM)).unwrap();
    assert_eq!(s.phase(), Phase::Connecting);
}

#[test]
fn replies_during_handshake_are_ignored() {
    let mut s = ClientSession::new(Role::Publish, "cam".to_string());
    let out = s.run(result_reply(TRANSACTION_ID_CONNECT)).unwrap();
    assert_eq!(s.phase(), Phase::Handshaking);
    assert!(out.is_empty());
}

#[test]
fn connect_reply_after_connect_does_not_regress() {
    let mut s = session_in(Role::Play, Phase::Playing);
    s.run(result_reply(TRANSACTION_ID_CONNECT)).unwrap();
    assert_eq!(s.phase(), Phase::Playing);
    s.run(Inbound::HandshakeFinished).unwrap();
    assert_eq!(s.phase(), Phase::Playing);
}

#[test]
fn unknown_transaction_id_changes_nothing() {
    let mut s = session_in(Role::Play, Phase::Connecting);
    for id in [0u64, 3, 257, u64::MAX] {
        s.run(result_reply(id)).unwrap();
        assert_eq!(s.phase(), Phase::Connecting);
        assert_eq!(s.max_chunk_size(), DEFAULT_CHUNK_SIZE);
    }
    let msg = command("_result", Amf0Value::OtherNumber, vec![]);
    s.run(Inbound::Message(msg)).unwrap();
    let msg = command("_result", text("1"), vec![]);
    s.run(Inbound::Message(msg)).unwrap();
    assert_eq!(s.phase(), Phase::Connecting);
    assert_eq!(s.max_chunk_size(), DEFAULT_CHUNK_SIZE);
}

#[test]
fn misspelled_result_is_not_a_reply() {
    let mut s = session_in(Role::Play, Phase::Connecting);
    let msg = command("_reslut", Amf0Value::WholeNumber(TRANSACTION_ID_CONNECT), vec![]);
    s.run(Inbound::Message(msg)).unwrap();
    assert_eq!(s.phase(), Phase::Connecting);
}

#[test]
fn error_reply_is_recoverable() {
    let mut s = session_in(Role::Play, Phase::Connecting);
    let msg = command("_error", Amf0Value::WholeNumber(TRANSACTION_ID_CONNECT), vec![]);
    let out = s.run(Inbound::Message(msg)).unwrap();
    assert_eq!(s.phase(), Phase::Connecting);
    assert_eq!(out.len(), 1);
}

#[test]
fn set_chunk_size_is_taken_exactly() {
    let mut s = session_in(Role::Play, Phase::Playing);
    let out = s.process_messages(DecodedMessage::SetChunkSize { chunk_size: 4096 }).unwrap();
    assert!(out.is_none());
    assert_eq!(s.max_chunk_size(), 4096);
    assert_eq!(s.phase(), Phase::Playing);
}

#[test]
fn peer_bandwidth_gets_one_fixed_acknowledgement() {
    let mut s = session_in(Role::Publish, Phase::Publishing);
    let msg = DecodedMessage::SetPeerBandwidth { window_size: 2_500_000, limit_type: 2 };
    let out = s.run(Inbound::Message(msg)).unwrap();
    let acks: Vec<&OutboundMessage> = out
        .iter()
        .filter(|m| matches!(m.request, Request::WindowAcknowledgementSize { .. }))
        .collect();
    assert_eq!(acks.len(), 1);
    assert_eq!(acks[0].csid, CSID_PROTOCOL_CONTROL);
    assert_eq!(acks[0].msg_type_id, MSG_TYPE_WINDOW_ACKNOWLEDGEMENT_SIZE);
    assert!(matches!(
        out[0].request,
        Request::WindowAcknowledgementSize { window_size: 250000 }
    ));
    assert_eq!(ACKNOWLEDGEMENT_WINDOW_SIZE, 250000);
    assert_eq!(s.phase(), Phase::Publishing);
}

#[test]
fn peer_bandwidth_reply_ignores_the_window() {
    let mut s = session_in(Role::Play, Phase::Handshaking);
    let msg = DecodedMessage::SetPeerBandwidth { window_size: 1, limit_type: 0 };
    let reply = s.process_messages(msg).unwrap().unwrap();
    assert!(matches!(
        reply.request,
        Request::WindowAcknowledgementSize { window_size: 250000 }
    ));
}

#[test]
fn status_without_arguments_is_a_shape_mismatch() {
    let mut s = session_in(Role::Play, Phase::Playing);
    let msg = command("onStatus", Amf0Value::WholeNumber(0), vec![]);
    assert!(matches!(s.run(Inbound::Message(msg)), Err(SessionError::ArgumentShapeMismatch)));
    assert_eq!(s.phase(), Phase::Playing);
}

#[test]
fn status_with_non_object_is_a_shape_mismatch() {
    let mut s = session_in(Role::Play, Phase::Playing);
    let mut others = vec![text("NetStream.Play.Start")];
    let r = s.process_amf0_command_message(
        &text("onStatus"),
        &Amf0Value::WholeNumber(0),
        &Amf0Value::Null,
        &mut others,
    );
    assert_eq!(r, Err(SessionError::ArgumentShapeMismatch));
    assert!(others.is_empty());
}

#[test]
fn status_with_object_is_accepted() {
    let mut s = session_in(Role::Publish, Phase::Publishing);
    let mut others = vec![status_object(), Amf0Value::Boolean(true)];
    let r = s.process_amf0_command_message(
        &text("onStatus"),
        &Amf0Value::WholeNumber(0),
        &Amf0Value::Null,
        &mut others,
    );
    assert_eq!(r, Ok(()));
    assert_eq!(others.len(), 1);
    assert!(matches!(others[0], Amf0Value::Boolean(true)));
    assert_eq!(s.phase(), Phase::Publishing);
}

#[test]
fn unknown_command_and_other_messages_are_no_ops() {
    let mut s = session_in(Role::Play, Phase::CreatingStream);
    let msg = command("onBWDone", Amf0Value::WholeNumber(2), vec![]);
    assert!(s.process_messages(msg).unwrap().is_none());
    let msg = DecodedMessage::Amf0Command {
        command_name: Amf0Value::Null,
        transaction_id: Amf0Value::WholeNumber(2),
        command_object: Amf0Value::Null,
        others: vec![],
    };
    assert!(s.process_messages(msg).unwrap().is_none());
    assert!(s.process_messages(DecodedMessage::Other).unwrap().is_none());
    let audio = DecodedMessage::AudioData { data: BytesMut::from(&b"abc"[..]) };
    assert!(s.process_messages(audio).unwrap().is_none());
    let video = DecodedMessage::VideoData { data: BytesMut::new() };
    assert!(s.process_messages(video).unwrap().is_none());
    assert_eq!(s.phase(), Phase::CreatingStream);
    assert_eq!(s.max_chunk_size(), DEFAULT_CHUNK_SIZE);
}

#[test]
fn control_messages_use_the_control_stream() {
    let s = ClientSession::new(Role::Play, "cam".to_string());
    let m = s.send_set_chunk_size();
    assert_eq!((m.csid, m.msg_type_id, m.timestamp), (CSID_PROTOCOL_CONTROL, MSG_TYPE_SET_CHUNK_SIZE, 0));
    assert!(matches!(m.request, Request::SetChunkSize { chunk_size: 4096 }));
    assert_eq!(CHUNK_SIZE, 4096);
    let m = s.send_window_acknowledgement_size(5000);
    assert_eq!((m.csid, m.msg_type_id), (CSID_PROTOCOL_CONTROL, MSG_TYPE_WINDOW_ACKNOWLEDGEMENT_SIZE));
    assert!(matches!(m.request, Request::WindowAcknowledgementSize { window_size: 5000 }));
    let m = s.send_set_buffer_length(1, 3000);
    assert_eq!((m.csid, m.msg_type_id), (CSID_PROTOCOL_CONTROL, MSG_TYPE_USER_CONTROL_EVENT));
    assert!(matches!(m.request, Request::SetBufferLength { stream_id: 1, ms: 3000 }));
}

#[test]
fn stream_commands_use_the_command_stream() {
    let s = ClientSession::new(Role::Publish, "cam".to_string());
    let m = s.send_delete_stream(4, 1);
    expect_command(&m);
    assert!(matches!(m.request, Request::DeleteStream { transaction_id: 4, stream_id: 1 }));
    let m = s.send_publish(5, &"other".to_string(), &"record".to_string());
    expect_command(&m);
    match &m.request {
        Request::Publish { transaction_id, stream_name, stream_type } => {
            assert_eq!(*transaction_id, 5);
            assert_eq!(stream_name, "other");
            assert_eq!(stream_type, "record");
        }
        _ => panic!("expected publish"),
    }
    let m = s.send_play(6, &"other".to_string(), -2, -1, true);
    expect_command(&m);
    assert!(matches!(
        m.request,
        Request::Play { transaction_id: 6, start: -2, duration: -1, reset: true, .. }
    ));
    let m = s.send_connect(9);
    assert!(matches!(m.request, Request::Connect { transaction_id: 9, .. }));
    let m = s.send_create_stream(7);
    expect_command(&m);
    assert!(matches!(m.request, Request::CreateStream { transaction_id: 7 }));
}

#[test]
fn media_uses_its_own_streams() {
    let s = ClientSession::new(Role::Publish, "cam".to_string());
    let m = s.send_audio(BytesMut::from(&b"\xaf\x01"[..]));
    assert_eq!((m.csid, m.msg_type_id, m.timestamp), (CSID_AUDIO, MSG_TYPE_AUDIO, 0));
    match &m.request {
        Request::Audio { data } => assert_eq!(&data[..], b"\xaf\x01"),
        _ => panic!("expected audio"),
    }
    let m = s.send_video(BytesMut::from(&b"\x17"[..]));
    assert_eq!((m.csid, m.msg_type_id), (CSID_VIDEO, MSG_TYPE_VIDEO));
    match &m.request {
        Request::Video { data } => assert_eq!(&data[..], b"\x17"),
        _ => panic!("expected video"),
    }
}

#[test]
fn frame_picks_metadata_by_kind() {
    let m = OutboundMessage::frame(Request::SetChunkSize { chunk_size: 1 });
    assert_eq!((m.csid, m.msg_type_id), (2, 1));
    let m = OutboundMessage::frame(Request::CreateStream { transaction_id: 2 });
    assert_eq!((m.csid, m.msg_type_id), (3, 20));
}

#[test]
fn direct_handlers() {
    let mut s = session_in(Role::Play, Phase::Connecting);
    assert_eq!(s.on_result_create_stream(), Ok(()));
    assert_eq!(s.phase(), Phase::Connecting);
    assert_eq!(s.on_result_connect(), Ok(()));
    assert_eq!(s.phase(), Phase::CreatingStream);
    assert_eq!(s.on_result_create_stream(), Ok(()));
    assert_eq!(s.phase(), Phase::Playing);
    assert_eq!(s.on_set_chunk_size(60000), Ok(()));
    assert_eq!(s.max_chunk_size(), 60000);
    assert_eq!(s.on_error(), Ok(()));
    assert_eq!(s.on_status(&vec![]), Ok(()));
    assert_eq!(s.phase(), Phase::Playing);
    let reply = s.on_set_peer_bandwidth();
    assert!(matches!(reply.request, Request::WindowAcknowledgementSize { window_size: 250000 }));
    let mut s = ClientSession::new(Role::Publish, "x".to_string());
    s.on_handshake_finished();
    assert_eq!(s.phase(), Phase::Connecting);
    s.on_handshake_finished();
    assert_eq!(s.phase(), Phase::Connecting);
}

#[test]
fn string_equality_on_values() {
    assert!(string_equals(&text("_result"), "_result"));
    assert!(!string_equals(&text("_result"), "_reslut"));
    assert!(!string_equals(&Amf0Value::WholeNumber(1), "1"));
}
