//! Properties of the session that hold across calls.
use vstd::prelude::*;
use crate::amf0::{is_string, is_whole_number};
use crate::message::{DecodedMessage, Inbound};
use crate::outbound::{RequestModel, framed};
use crate::session::{
    DEFAULT_CHUNK_SIZE, Phase, Role, SessionState, TRANSACTION_ID_CONNECT,
    TRANSACTION_ID_CREATE_STREAM, inbound_fails, inbound_output, inbound_step, message_reply,
    message_step, result_name, status_name, window_ack_reply,
};

verus! {

/// Position of a phase in the sequence; both streaming phases come last.
pub open spec fn rank(p: Phase) -> int {
    match p {
        Phase::Handshaking => 0,
        Phase::Connecting => 1,
        Phase::CreatingStream => 2,
        Phase::Playing => 3,
        Phase::Publishing => 3,
    }
}

/// The phase that follows `p` for a session of role `role`.
pub open spec fn successor(p: Phase, role: Role) -> Phase {
    match p {
        Phase::Handshaking => Phase::Connecting,
        Phase::Connecting => Phase::CreatingStream,
        Phase::CreatingStream => match role {
            Role::Play => Phase::Playing,
            Role::Publish => Phase::Publishing,
        },
        _ => p,
    }
}

/// `b` is `a` or the phase right after it.
pub open spec fn advances(a: Phase, b: Phase, role: Role) -> bool {
    b == a || b == successor(a, role)
}

/// A streaming phase belongs to the matching role.
pub open spec fn fits_role(p: Phase, role: Role) -> bool {
    &&& p == Phase::Playing ==> role == Role::Play
    &&& p == Phase::Publishing ==> role == Role::Publish
}

/// The state after the events `events`, handled in order from `s`.
#[verifier::opaque]
pub open spec fn state_after(s: SessionState, events: Seq<Inbound>) -> SessionState
    decreases events.len(),
{
    if events.len() == 0 {
        s
    } else {
        inbound_step(state_after(s, events.drop_last()), events.last())
    }
}

/// `msg` is a "_result" reply carrying transaction id `tid`.
pub open spec fn is_result_reply(msg: DecodedMessage, tid: u64) -> bool {
    match msg {
        DecodedMessage::Amf0Command { command_name, transaction_id, .. } => is_string(
            command_name,
            result_name(),
        ) && is_whole_number(transaction_id, tid),
        _ => false,
    }
}

proof fn lemma_step_advances(s: SessionState, e: Inbound)
    ensures
        advances(s.phase, inbound_step(s, e).phase, s.role),
        inbound_step(s, e).role == s.role,
        fits_role(s.phase, s.role) ==> fits_role(inbound_step(s, e).phase, s.role),
        rank(s.phase) <= rank(inbound_step(s, e).phase),
{
}

/// Whatever events arrive, each moves the phase at most one place along
/// handshake, connect, create-stream, then play or publish as the role
/// says: no phase is skipped and none is gone back to.
pub proof fn phase_monotone(s: SessionState, events: Seq<Inbound>)
    requires
        fits_role(s.phase, s.role),
    ensures
        forall|i: int|
            0 <= i < events.len() ==> advances(
                #[trigger] state_after(s, events.take(i)).phase,
                state_after(s, events.take(i + 1)).phase,
                s.role,
            ),
        rank(s.phase) <= rank(state_after(s, events).phase),
        fits_role(state_after(s, events).phase, s.role),
        state_after(s, events).role == s.role,
    decreases events.len(),
{
    if events.len() == 0 {
        reveal(state_after);
    } else {
        let prefix = events.drop_last();
        phase_monotone(s, prefix);
        lemma_take_advances(s, events, events.len() - 1);
        assert(events.take(events.len() - 1) =~= prefix);
        assert(events.take(events.len() as int) =~= events);
        assert forall|i: int| 0 <= i < events.len() implies advances(
            #[trigger] state_after(s, events.take(i)).phase,
            state_after(s, events.take(i + 1)).phase,
            s.role,
        ) by {
            phase_monotone(s, events.take(i));
            lemma_take_advances(s, events, i);
        }
    }
}

proof fn lemma_take_advances(s: SessionState, events: Seq<Inbound>, i: int)
    requires
        0 <= i < events.len(),
    ensures
        ({
            let a = state_after(s, events.take(i));
            let b = state_after(s, events.take(i + 1));
            &&& advances(a.phase, b.phase, a.role)
            &&& b.role == a.role
            &&& fits_role(a.phase, a.role) ==> fits_role(b.phase, a.role)
            &&& rank(a.phase) <= rank(b.phase)
        }),
{
    lemma_take_step(s, events, i);
    lemma_step_advances(state_after(s, events.take(i)), events[i]);
}

proof fn lemma_take_step(s: SessionState, events: Seq<Inbound>, i: int)
    requires
        0 <= i < events.len(),
    ensures
        state_after(s, events.take(i + 1)) == inbound_step(state_after(s, events.take(i)), events[i]),
{
    let before = events.take(i + 1);
    assert(before.drop_last() =~= events.take(i));
    reveal(state_after);
}

/// A create-stream reply that comes before the connect reply was seen
/// leaves the session where it is.
pub proof fn create_stream_reply_waits_for_connect(s: SessionState, msg: DecodedMessage)
    requires
        s.phase == Phase::Handshaking || s.phase == Phase::Connecting,
        is_result_reply(msg, TRANSACTION_ID_CREATE_STREAM),
    ensures
        message_step(s, msg) == s,
{
}

/// A "_result" reply whose id is neither reserved one changes nothing:
/// not the phase, not the chunk size.
pub proof fn unknown_reply_changes_nothing(s: SessionState, msg: DecodedMessage)
    requires
        msg is Amf0Command,
        is_string(msg->Amf0Command_command_name, result_name()),
        !is_whole_number(msg->Amf0Command_transaction_id, TRANSACTION_ID_CONNECT),
        !is_whole_number(msg->Amf0Command_transaction_id, TRANSACTION_ID_CREATE_STREAM),
    ensures
        message_step(s, msg) == s,
{
}

/// A peer chunk size becomes the largest chunk accepted, exactly.
pub proof fn chunk_size_taken(s: SessionState, chunk_size: u32)
    ensures
        message_step(s, DecodedMessage::SetChunkSize { chunk_size }).max_chunk_size == chunk_size,
{
}

/// A peer bandwidth message, whatever its window, is answered by exactly
/// one acknowledgement-window message, which carries the fixed window.
pub proof fn bandwidth_answered_once(s: SessionState, window_size: u32, limit_type: u8)
    ensures
        ({
            let e = Inbound::Message(DecodedMessage::SetPeerBandwidth { window_size, limit_type });
            let out = inbound_output(s, e);
            &&& !inbound_fails(e)
            &&& out.len() >= 1
            &&& out[0] == window_ack_reply()
            &&& forall|j: int| 1 <= j < out.len() ==> !(out[j].request is WindowAcknowledgementSize)
        }),
{
}

/// A status command whose trailing arguments are empty is refused.
pub proof fn status_without_object_fails(msg: DecodedMessage)
    requires
        msg is Amf0Command,
        is_string(msg->Amf0Command_command_name, status_name()),
        msg->Amf0Command_others@.len() == 0,
    ensures
        inbound_fails(Inbound::Message(msg)),
{
}

/// A publishing session whose peer finishes the handshake and answers the
/// connect and create-stream requests reaches the publishing phase, and
/// what it sends next is a "live" publish command for its stream.
pub proof fn publish_session_reaches_publishing(
    stream_name: Seq<char>,
    connect_reply: DecodedMessage,
    create_reply: DecodedMessage,
)
    requires
        is_result_reply(connect_reply, TRANSACTION_ID_CONNECT),
        is_result_reply(create_reply, TRANSACTION_ID_CREATE_STREAM),
    ensures
        ({
            let s0 = SessionState {
                phase: Phase::Handshaking,
                role: Role::Publish,
                stream_name,
                max_chunk_size: DEFAULT_CHUNK_SIZE,
            };
            let events = seq![
                Inbound::HandshakeFinished,
                Inbound::Message(connect_reply),
                Inbound::Message(create_reply),
            ];
            &&& state_after(s0, events).phase == Phase::Publishing
            &&& inbound_output(state_after(s0, events.take(2)), events[2]) == seq![
                framed(
                    RequestModel::Publish {
                        transaction_id: 0,
                        stream_name,
                        stream_type: "live"@,
                    },
                ),
            ]
        }),
{
    let s0 = SessionState {
        phase: Phase::Handshaking,
        role: Role::Publish,
        stream_name,
        max_chunk_size: DEFAULT_CHUNK_SIZE,
    };
    let events = seq![
        Inbound::HandshakeFinished,
        Inbound::Message(connect_reply),
        Inbound::Message(create_reply),
    ];
    assert(events.drop_last() =~= events.take(2));
    assert(events.take(2).drop_last() =~= events.take(1));
    assert(events.take(1).drop_last() =~= events.take(0));
    reveal_with_fuel(state_after, 4);
    assert(inbound_output(state_after(s0, events.take(2)), events[2]) =~= seq![
        framed(RequestModel::Publish { transaction_id: 0, stream_name, stream_type: "live"@ }),
    ]);
}

} // verus!
