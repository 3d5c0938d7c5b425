//! The connector's side of one stream: from an accepted QUIC stream to a
//! running bridge with the edge server.
//!
//! The caller reads the handshake frame, dials the edge server that the frame
//! names and runs a bridge. It reports each outcome here and is told the next
//! move. Whatever fails ends the stream with an error.

use crate::bridge::BridgeError;
use crate::frame::{decode_handshake, decoded, FrameError, StreamSession};
use crate::listener::{
    lemma_frame_names_the_edge, stream_step, StreamEffect, StreamEvent, StreamState,
};
use vstd::prelude::*;
use vstd::utf8::{encode_utf8, valid_utf8};

verus! {

/// Where a stream stands on the connector's side.
#[derive(Debug, Clone, Copy, PartialEq, Eq, Structural)]
pub enum HandlerState {
    /// The stream was accepted; its handshake frame is being read.
    AwaitingFrame,
    /// The frame was read; the edge server is being dialled.
    Dialing,
    /// The edge server answered; the bridge runs.
    Bridging,
    /// The stream is over.
    Closed,
}

/// Why a stream ended with an error.
#[derive(Debug, Clone, Copy, PartialEq, Eq, Structural)]
pub enum HandlerError {
    /// The handshake frame could not be read from the stream.
    FrameUnread,
    /// The handshake frame breaks the protocol.
    Protocol(FrameError),
    /// The edge server could not be reached.
    DialFailed,
    /// The bridge gave up.
    Bridge(BridgeError),
}

/// What the caller reports.
#[derive(Debug, Clone, Copy)]
pub enum HandlerEvent<'a> {
    /// These bytes were read as the handshake frame.
    FrameRead(&'a [u8]),
    /// Reading the handshake frame failed.
    FrameReadFailed,
    /// The edge server accepted the connection.
    Dialed,
    /// The edge server could not be reached.
    DialFailed,
    /// The bridge ended in good order.
    BridgeFinished,
    /// The bridge gave up.
    BridgeFailed(BridgeError),
}

/// What the caller is to do next.
#[derive(Debug, Clone, PartialEq, Eq)]
pub enum HandlerAction {
    /// Dial the edge server of this session over TCP.
    Dial(StreamSession),
    /// Run a bridge between the stream and the edge server.
    StartBridge,
    /// Drop the stream and the socket: the stream ended in good order.
    Finish,
    /// Drop the stream and the socket, and report the error.
    Abort(HandlerError),
    /// The event does not belong to this state: it is left aside.
    Ignore,
}

// ---------------------------------------------------------------------------
// Model
// ---------------------------------------------------------------------------
/// What can happen to a stream, with frames as bytes.
pub enum HandlerOccurrence {
    FrameRead(Seq<u8>),
    FrameReadFailed,
    Dialed,
    DialFailed,
    BridgeFinished,
    BridgeFailed(BridgeError),
}

/// What the connector asks for, with ids and addresses as bytes.
pub enum HandlerEffect {
    Dial { stream_id: Seq<u8>, edge_target: Seq<u8> },
    StartBridge,
    Finish,
    Abort(HandlerError),
    Ignore,
}

/// The occurrence that an event stands for.
pub open spec fn occurrence_of(event: HandlerEvent<'_>) -> HandlerOccurrence {
    match event {
        HandlerEvent::FrameRead(frame) => HandlerOccurrence::FrameRead(frame@),
        HandlerEvent::FrameReadFailed => HandlerOccurrence::FrameReadFailed,
        HandlerEvent::Dialed => HandlerOccurrence::Dialed,
        HandlerEvent::DialFailed => HandlerOccurrence::DialFailed,
        HandlerEvent::BridgeFinished => HandlerOccurrence::BridgeFinished,
        HandlerEvent::BridgeFailed(e) => HandlerOccurrence::BridgeFailed(e),
    }
}

/// The effect that an action stands for.
pub open spec fn effect_of(action: HandlerAction) -> HandlerEffect {
    match action {
        HandlerAction::Dial(session) => HandlerEffect::Dial {
            stream_id: encode_utf8(session.stream_id@),
            edge_target: encode_utf8(session.edge_target@),
        },
        HandlerAction::StartBridge => HandlerEffect::StartBridge,
        HandlerAction::Finish => HandlerEffect::Finish,
        HandlerAction::Abort(e) => HandlerEffect::Abort(e),
        HandlerAction::Ignore => HandlerEffect::Ignore,
    }
}

/// One step of a stream: the state after `occurrence` and the effect asked
/// for.
pub open spec fn handler_step(state: HandlerState, occurrence: HandlerOccurrence) -> (
    HandlerState,
    HandlerEffect,
) {
    match (state, occurrence) {
        (HandlerState::AwaitingFrame, HandlerOccurrence::FrameRead(frame)) => match decoded(frame) {
            Ok((stream_id, edge_target)) => (
                HandlerState::Dialing,
                HandlerEffect::Dial { stream_id, edge_target },
            ),
            Err(e) => (HandlerState::Closed, HandlerEffect::Abort(HandlerError::Protocol(e))),
        },
        (HandlerState::AwaitingFrame, HandlerOccurrence::FrameReadFailed) => (
            HandlerState::Closed,
            HandlerEffect::Abort(HandlerError::FrameUnread),
        ),
        (HandlerState::Dialing, HandlerOccurrence::Dialed) => (
            HandlerState::Bridging,
            HandlerEffect::StartBridge,
        ),
        (HandlerState::Dialing, HandlerOccurrence::DialFailed) => (
            HandlerState::Closed,
            HandlerEffect::Abort(HandlerError::DialFailed),
        ),
        (HandlerState::Bridging, HandlerOccurrence::BridgeFinished) => (
            HandlerState::Closed,
            HandlerEffect::Finish,
        ),
        (HandlerState::Bridging, HandlerOccurrence::BridgeFailed(e)) => (
            HandlerState::Closed,
            HandlerEffect::Abort(HandlerError::Bridge(e)),
        ),
        _ => (state, HandlerEffect::Ignore),
    }
}

// ---------------------------------------------------------------------------
// The step
// ---------------------------------------------------------------------------
/// Takes one event of a stream and says where the stream stands now and what
/// to do.
pub fn handle_stream(state: HandlerState, event: HandlerEvent<'_>) -> (res: (
    HandlerState,
    HandlerAction,
))
    ensures
        (res.0, effect_of(res.1)) == handler_step(state, occurrence_of(event)),
{
    match state {
        HandlerState::AwaitingFrame => match event {
            HandlerEvent::FrameRead(frame) => match decode_handshake(frame) {
                Ok(session) => (HandlerState::Dialing, HandlerAction::Dial(session)),
                Err(e) => (HandlerState::Closed, HandlerAction::Abort(HandlerError::Protocol(e))),
            },
            HandlerEvent::FrameReadFailed => (
                HandlerState::Closed,
                HandlerAction::Abort(HandlerError::FrameUnread),
            ),
            _ => (state, HandlerAction::Ignore),
        },
        HandlerState::Dialing => match event {
            HandlerEvent::Dialed => (HandlerState::Bridging, HandlerAction::StartBridge),
            HandlerEvent::DialFailed => (
                HandlerState::Closed,
                HandlerAction::Abort(HandlerError::DialFailed),
            ),
            _ => (state, HandlerAction::Ignore),
        },
        HandlerState::Bridging => match event {
            HandlerEvent::BridgeFinished => (HandlerState::Closed, HandlerAction::Finish),
            HandlerEvent::BridgeFailed(e) => (
                HandlerState::Closed,
                HandlerAction::Abort(HandlerError::Bridge(e)),
            ),
            _ => (state, HandlerAction::Ignore),
        },
        HandlerState::Closed => (state, HandlerAction::Ignore),
    }
}

// ---------------------------------------------------------------------------
// Laws
// ---------------------------------------------------------------------------
/// A stream leads where its port was opened to. Whatever frame the listener
/// asks to have written for a stream of a port with edge address `edge`, the
/// connector that reads it dials exactly `edge`, under the id that the
/// listener gave the stream.
pub proof fn lemma_stream_reaches_configured_edge(
    state: StreamState,
    event: StreamEvent,
    edge: Seq<u8>,
    size: nat,
)
    requires
        valid_utf8(edge),
    ensures
        stream_step(state, event, edge, size).1 matches StreamEffect::SendFrame { stream_id, frame }
            ==> handler_step(HandlerState::AwaitingFrame, HandlerOccurrence::FrameRead(frame)) == (
            HandlerState::Dialing,
            HandlerEffect::Dial { stream_id, edge_target: edge },
        ),
{
    lemma_frame_names_the_edge(state, event, edge, size);
}

} // verus!
