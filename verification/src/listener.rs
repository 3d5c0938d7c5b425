//! The listener's side of one stream: from a manager client accepted on an
//! open port to a running bridge.
//!
//! For every accepted client the caller looks up the tunnel of the port's
//! UID, opens a bidirectional QUIC stream on it, writes the handshake frame
//! and starts a bridge. It reports each outcome here and is told the next
//! move. A stream goes forward only: whatever fails, the client is dropped
//! and nothing is tried again on that stream. That holds also where the
//! handshake frame cannot carry the port's edge address: no frame is written
//! then, and the client is dropped.

use crate::frame::{
    carries, decoded, encode_handshake, frame_bytes, lemma_stream_frame_round_trip, stream_id,
    stream_id_bytes, FrameError,
};
use vstd::prelude::*;
use vstd::utf8::{encode_utf8, valid_utf8};

verus! {

/// Where a stream stands on the listener's side.
#[derive(Debug, Clone, Copy, PartialEq, Eq, Structural)]
pub enum StreamState {
    /// A manager client was accepted; its tunnel is yet to be looked up.
    Accepted,
    /// The tunnel is there; a QUIC stream is being opened on it.
    Opening,
    /// The QUIC stream is open; the handshake frame is being written.
    Opened,
    /// The handshake frame is written; the bridge is being started.
    HandshakeSent,
    /// The bridge runs.
    Bridging,
    /// The stream is over.
    Closed,
}

/// What the caller reports.
#[derive(Debug, Clone, Copy, PartialEq, Eq, Structural)]
pub enum StreamEvent {
    /// The tunnel registry holds a connection for the port's UID.
    TunnelFound,
    /// The tunnel registry holds no connection for the port's UID.
    TunnelMissing,
    /// A QUIC stream with this index was opened on the connection with this
    /// stable id.
    StreamOpened { stable_id: u64, index: u64 },
    /// Opening the QUIC stream failed.
    OpenFailed,
    /// The handshake frame was written.
    FrameSent,
    /// Writing the handshake frame failed.
    SendFailed,
    /// The bridge was started.
    BridgeStarted,
    /// The bridge ended.
    BridgeEnded,
}

/// What the caller is to do next.
#[derive(Debug, Clone, PartialEq, Eq)]
pub enum StreamAction {
    /// Open a bidirectional stream on the tunnel's connection.
    OpenStream,
    /// Write `frame` on the new stream, which is known as `stream_id`.
    SendFrame { stream_id: String, frame: Vec<u8> },
    /// Start a bridge between the stream and the manager client.
    StartBridge,
    /// Drop the manager client and the stream, if there is one.
    Discard,
    /// Nothing: wait for the next event.
    Wait,
    /// The event does not belong to this state: it is left aside.
    Ignore,
}

// ---------------------------------------------------------------------------
// Model
// ---------------------------------------------------------------------------
/// What the listener asks for, with frames and ids as bytes.
pub enum StreamEffect {
    OpenStream,
    SendFrame { stream_id: Seq<u8>, frame: Seq<u8> },
    StartBridge,
    Discard,
    Wait,
    Ignore,
}

/// The effect that an action stands for.
pub open spec fn effect_of(action: StreamAction) -> StreamEffect {
    match action {
        StreamAction::OpenStream => StreamEffect::OpenStream,
        StreamAction::SendFrame { stream_id, frame } => StreamEffect::SendFrame {
            stream_id: encode_utf8(stream_id@),
            frame: frame@,
        },
        StreamAction::StartBridge => StreamEffect::StartBridge,
        StreamAction::Discard => StreamEffect::Discard,
        StreamAction::Wait => StreamEffect::Wait,
        StreamAction::Ignore => StreamEffect::Ignore,
    }
}

/// One step of a stream: the state after `event` and the effect asked for,
/// on a port whose edge address is `edge` and with frames of `size` bytes.
pub open spec fn stream_step(state: StreamState, event: StreamEvent, edge: Seq<u8>, size: nat) -> (
    StreamState,
    StreamEffect,
) {
    match (state, event) {
        (StreamState::Accepted, StreamEvent::TunnelFound) => (
            StreamState::Opening,
            StreamEffect::OpenStream,
        ),
        (StreamState::Accepted, StreamEvent::TunnelMissing) => (
            StreamState::Closed,
            StreamEffect::Discard,
        ),
        (StreamState::Opening, StreamEvent::StreamOpened { stable_id, index }) => {
            let stream_id = stream_id_bytes(stable_id as nat, index as nat);
            if carries(stream_id, edge, size) {
                (
                    StreamState::Opened,
                    StreamEffect::SendFrame { stream_id, frame: frame_bytes(stream_id, edge, size) },
                )
            } else {
                (StreamState::Closed, StreamEffect::Discard)
            }
        },
        (StreamState::Opening, StreamEvent::OpenFailed) => (
            StreamState::Closed,
            StreamEffect::Discard,
        ),
        (StreamState::Opened, StreamEvent::FrameSent) => (
            StreamState::HandshakeSent,
            StreamEffect::StartBridge,
        ),
        (StreamState::Opened, StreamEvent::SendFailed) => (
            StreamState::Closed,
            StreamEffect::Discard,
        ),
        (StreamState::HandshakeSent, StreamEvent::BridgeStarted) => (
            StreamState::Bridging,
            StreamEffect::Wait,
        ),
        (StreamState::Bridging, StreamEvent::BridgeEnded) => (
            StreamState::Closed,
            StreamEffect::Discard,
        ),
        _ => (state, StreamEffect::Ignore),
    }
}

/// How far a stream has come.
pub open spec fn progress(state: StreamState) -> nat {
    match state {
        StreamState::Accepted => 0,
        StreamState::Opening => 1,
        StreamState::Opened => 2,
        StreamState::HandshakeSent => 3,
        StreamState::Bridging => 4,
        StreamState::Closed => 5,
    }
}

// ---------------------------------------------------------------------------
// The step
// ---------------------------------------------------------------------------
/// Takes one event of a stream on a port that leads to `connect_addrs` and
/// says where the stream stands now and what to do.
pub fn handle_stream(
    state: StreamState,
    event: StreamEvent,
    max_vector_size: usize,
    connect_addrs: &str,
) -> (res: (StreamState, StreamAction))
    ensures
        (res.0, effect_of(res.1)) == stream_step(
            state,
            event,
            encode_utf8(connect_addrs@),
            max_vector_size as nat,
        ),
{
    match state {
        StreamState::Accepted => match event {
            StreamEvent::TunnelFound => (StreamState::Opening, StreamAction::OpenStream),
            StreamEvent::TunnelMissing => (StreamState::Closed, StreamAction::Discard),
            _ => (state, StreamAction::Ignore),
        },
        StreamState::Opening => match event {
            StreamEvent::StreamOpened { stable_id, index } => {
                let id = stream_id(stable_id, index);
                match encode_handshake(id.as_str(), connect_addrs, max_vector_size) {
                    Some(frame) => (
                        StreamState::Opened,
                        StreamAction::SendFrame { stream_id: id, frame },
                    ),
                    None => (StreamState::Closed, StreamAction::Discard),
                }
            },
            StreamEvent::OpenFailed => (StreamState::Closed, StreamAction::Discard),
            _ => (state, StreamAction::Ignore),
        },
        StreamState::Opened => match event {
            StreamEvent::FrameSent => (StreamState::HandshakeSent, StreamAction::StartBridge),
            StreamEvent::SendFailed => (StreamState::Closed, StreamAction::Discard),
            _ => (state, StreamAction::Ignore),
        },
        StreamState::HandshakeSent => match event {
            StreamEvent::BridgeStarted => (StreamState::Bridging, StreamAction::Wait),
            _ => (state, StreamAction::Ignore),
        },
        StreamState::Bridging => match event {
            StreamEvent::BridgeEnded => (StreamState::Closed, StreamAction::Discard),
            _ => (state, StreamAction::Ignore),
        },
        StreamState::Closed => (state, StreamAction::Ignore),
    }
}

// ---------------------------------------------------------------------------
// The accept loop of an open port
// ---------------------------------------------------------------------------
/// What the accept loop of an open port does after one `accept`.
#[derive(Debug, Clone, Copy, PartialEq, Eq, Structural)]
pub enum LoopAction {
    /// Serve the accepted manager client as a new stream in state
    /// `Accepted`, then accept again.
    Serve,
    /// Leave the loop, which releases the socket.
    Stop,
}

/// Says how the accept loop goes on: it serves every client that was
/// accepted and ends at the first `accept` that fails.
pub fn on_accept(accepted: bool) -> (res: (LoopAction, Option<StreamState>))
    ensures
        accepted ==> res == (LoopAction::Serve, Some(StreamState::Accepted)),
        !accepted ==> res == (LoopAction::Stop, None::<StreamState>),
{
    if accepted {
        (LoopAction::Serve, Some(StreamState::Accepted))
    } else {
        (LoopAction::Stop, None)
    }
}

// ---------------------------------------------------------------------------
// Laws
// ---------------------------------------------------------------------------
/// A stream goes forward only. Every step either leaves the stream where it
/// is and asks for nothing, or takes it to a later state; and a closed
/// stream stays closed.
pub proof fn lemma_stream_is_linear(state: StreamState, event: StreamEvent, edge: Seq<u8>, size: nat)
    ensures
        stream_step(state, event, edge, size).0 == state ==> stream_step(
            state,
            event,
            edge,
            size,
        ).1 is Ignore,
        stream_step(state, event, edge, size).0 != state ==> progress(state) < progress(
            stream_step(state, event, edge, size).0,
        ),
        state == StreamState::Closed ==> stream_step(state, event, edge, size).0
            == StreamState::Closed,
{
}

/// Every frame that the listener asks to have written belongs to a stream
/// that was just opened, is the frame of that stream's id and of the edge
/// address of the port it was accepted on, and reads back as exactly these
/// two. Where the frame cannot carry them, the stream is closed instead.
pub proof fn lemma_frame_names_the_edge(
    state: StreamState,
    event: StreamEvent,
    edge: Seq<u8>,
    size: nat,
)
    requires
        valid_utf8(edge),
    ensures
        stream_step(state, event, edge, size).1 matches StreamEffect::SendFrame { stream_id, frame }
            ==> {
            &&& state == StreamState::Opening
            &&& event matches StreamEvent::StreamOpened { stable_id, index }
            &&& stream_id == stream_id_bytes(stable_id as nat, index as nat)
            &&& carries(stream_id, edge, size)
            &&& frame == frame_bytes(stream_id, edge, size)
            &&& decoded(frame) == Ok::<(Seq<u8>, Seq<u8>), FrameError>((stream_id, edge))
        },
        state == StreamState::Opening && (event matches StreamEvent::StreamOpened {
            stable_id,
            index,
        } && !carries(stream_id_bytes(stable_id as nat, index as nat), edge, size))
            ==> stream_step(state, event, edge, size) == (
            StreamState::Closed,
            StreamEffect::Discard,
        ),
{
    if state == StreamState::Opening {
        match event {
            StreamEvent::StreamOpened { stable_id, index } => {
                if carries(stream_id_bytes(stable_id as nat, index as nat), edge, size) {
                    lemma_stream_frame_round_trip(stable_id as nat, index as nat, edge, size);
                }
            },
            _ => {},
        }
    }
}

} // verus!
