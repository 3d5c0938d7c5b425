//! The connector session: from dialling the listener to the end of the QUIC
//! connection.
//!
//! The caller dials, accepts bidirectional streams in a loop and starts one
//! task per stream. It reports what happened and is told how to go on. An
//! accept that fails because the peer closed the connection in good order
//! lets the running stream tasks finish and ends the session cleanly; any
//! other failure ends it with an error.

use vstd::prelude::*;

verus! {

/// Where a session stands.
#[derive(Debug, Clone, Copy, PartialEq, Eq, Structural)]
pub enum SessionState {
    /// The server name is being resolved and the endpoint opened.
    Dialing,
    /// The endpoint is open; the QUIC handshake is under way.
    Connected,
    /// The handshake succeeded; streams are being accepted.
    AcceptingStreams,
    /// The peer closed the connection; running stream tasks are finishing.
    Draining,
    /// The session ended in good order.
    Closed,
    /// The session ended with an error.
    Failed,
}

/// What the caller reports.
#[derive(Debug, Clone, Copy, PartialEq, Eq, Structural)]
pub enum SessionEvent {
    /// The endpoint was opened and the connection attempt started.
    EndpointOpened,
    /// Resolving the server or opening the endpoint failed.
    DialFailed,
    /// The QUIC handshake succeeded.
    HandshakeSucceeded,
    /// The QUIC handshake failed.
    HandshakeFailed,
    /// A bidirectional stream was accepted.
    StreamAccepted,
    /// Accepting failed because the peer closed the connection.
    ApplicationClosed,
    /// Accepting failed for another reason.
    AcceptFailed,
    /// Every stream task has finished.
    StreamsFinished,
}

/// What the caller is to do next.
#[derive(Debug, Clone, Copy, PartialEq, Eq, Structural)]
pub enum SessionAction {
    /// Wait for the QUIC handshake.
    AwaitHandshake,
    /// Accept the next bidirectional stream.
    AcceptStream,
    /// Start a task for the accepted stream, then accept the next one.
    SpawnHandler,
    /// Wait until every stream task has finished.
    AwaitStreams,
    /// Leave with success.
    Exit,
    /// Leave with an error.
    Fail,
    /// The event does not belong to this state: it is left aside.
    Ignore,
}

/// One step of a session: the state after `event` and the action asked for.
pub open spec fn session_step(state: SessionState, event: SessionEvent) -> (
    SessionState,
    SessionAction,
) {
    match (state, event) {
        (SessionState::Dialing, SessionEvent::EndpointOpened) => (
            SessionState::Connected,
            SessionAction::AwaitHandshake,
        ),
        (SessionState::Dialing, SessionEvent::DialFailed) => (
            SessionState::Failed,
            SessionAction::Fail,
        ),
        (SessionState::Connected, SessionEvent::HandshakeSucceeded) => (
            SessionState::AcceptingStreams,
            SessionAction::AcceptStream,
        ),
        (SessionState::Connected, SessionEvent::HandshakeFailed) => (
            SessionState::Failed,
            SessionAction::Fail,
        ),
        (SessionState::AcceptingStreams, SessionEvent::StreamAccepted) => (
            SessionState::AcceptingStreams,
            SessionAction::SpawnHandler,
        ),
        (SessionState::AcceptingStreams, SessionEvent::ApplicationClosed) => (
            SessionState::Draining,
            SessionAction::AwaitStreams,
        ),
        (SessionState::AcceptingStreams, SessionEvent::AcceptFailed) => (
            SessionState::Failed,
            SessionAction::Fail,
        ),
        (SessionState::Draining, SessionEvent::StreamsFinished) => (
            SessionState::Closed,
            SessionAction::Exit,
        ),
        _ => (state, SessionAction::Ignore),
    }
}

/// How far a session has come.
pub open spec fn progress(state: SessionState) -> nat {
    match state {
        SessionState::Dialing => 0,
        SessionState::Connected => 1,
        SessionState::AcceptingStreams => 2,
        SessionState::Draining => 3,
        SessionState::Closed => 4,
        SessionState::Failed => 4,
    }
}

/// Whether a session is over.
pub open spec fn is_over(state: SessionState) -> bool {
    state == SessionState::Closed || state == SessionState::Failed
}

/// Takes one event of a session and says where the session stands now and
/// what to do.
pub fn wait_for_quic_stream(state: SessionState, event: SessionEvent) -> (res: (
    SessionState,
    SessionAction,
))
    ensures
        res == session_step(state, event),
{
    match state {
        SessionState::Dialing => match event {
            SessionEvent::EndpointOpened => (SessionState::Connected, SessionAction::AwaitHandshake),
            SessionEvent::DialFailed => (SessionState::Failed, SessionAction::Fail),
            _ => (state, SessionAction::Ignore),
        },
        SessionState::Connected => match event {
            SessionEvent::HandshakeSucceeded => (
                SessionState::AcceptingStreams,
                SessionAction::AcceptStream,
            ),
            SessionEvent::HandshakeFailed => (SessionState::Failed, SessionAction::Fail),
            _ => (state, SessionAction::Ignore),
        },
        SessionState::AcceptingStreams => match event {
            SessionEvent::StreamAccepted => (
                SessionState::AcceptingStreams,
                SessionAction::SpawnHandler,
            ),
            SessionEvent::ApplicationClosed => (SessionState::Draining, SessionAction::AwaitStreams),
            SessionEvent::AcceptFailed => (SessionState::Failed, SessionAction::Fail),
            _ => (state, SessionAction::Ignore),
        },
        SessionState::Draining => match event {
            SessionEvent::StreamsFinished => (SessionState::Closed, SessionAction::Exit),
            _ => (state, SessionAction::Ignore),
        },
        _ => (state, SessionAction::Ignore),
    }
}

/// A session never goes back, and one that is over stays as it is. It ends
/// in good order only by way of draining, and a stream task is started only
/// for a stream accepted while streams are being accepted.
pub proof fn lemma_session_goes_forward(state: SessionState, event: SessionEvent)
    ensures
        progress(state) <= progress(session_step(state, event).0),
        is_over(state) ==> session_step(state, event) == (state, SessionAction::Ignore),
        session_step(state, event).0 == SessionState::Closed && state != SessionState::Closed
            ==> state == SessionState::Draining,
        session_step(state, event).1 == SessionAction::SpawnHandler ==> state
            == SessionState::AcceptingStreams && event == SessionEvent::StreamAccepted,
{
}

} // verus!
