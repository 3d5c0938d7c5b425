use sw_tunnel::bridge::{BridgeError, Direction};
use sw_tunnel::connector::{self, HandlerAction, HandlerError, HandlerEvent, HandlerState};
use sw_tunnel::frame::{encode_handshake, FrameError, StreamSession};
use sw_tunnel::listener::{self, StreamAction, StreamEvent, StreamState};

const EDGE: &str = "127.0.0.1:9000";

#[test]
fn listener_stream_runs_from_accept_to_close() {
    let (state, action) = listener::handle_stream(StreamState::Accepted, StreamEvent::TunnelFound, 1024, EDGE);
    assert_eq!((state, action), (StreamState::Opening, StreamAction::OpenStream));
    let (state, action) = listener::handle_stream(
        state,
        StreamEvent::StreamOpened { stable_id: 93824, index: 3 },
        1024,
        EDGE,
    );
    assert_eq!(state, StreamState::Opened);
    match action {
        StreamAction::SendFrame { stream_id, frame } => {
            assert_eq!(stream_id, "93824-3");
            assert_eq!(Some(frame.clone()), encode_handshake("93824-3", EDGE, 1024));
            assert_eq!(&frame[..22], b"93824-3|127.0.0.1:9000");
        }
        other => panic!("{:?}", other),
    }
    let (state, action) = listener::handle_stream(state, StreamEvent::FrameSent, 1024, EDGE);
    assert_eq!((state, action), (StreamState::HandshakeSent, StreamAction::StartBridge));
    let (state, action) = listener::handle_stream(state, StreamEvent::BridgeStarted, 1024, EDGE);
    assert_eq!((state, action), (StreamState::Bridging, StreamAction::Wait));
    let (state, action) = listener::handle_stream(state, StreamEvent::BridgeEnded, 1024, EDGE);
    assert_eq!((state, action), (StreamState::Closed, StreamAction::Discard));
}

#[test]
fn listener_discards_the_client_when_a_step_fails() {
    let closed = (StreamState::Closed, StreamAction::Discard);
    assert_eq!(listener::handle_stream(StreamState::Accepted, StreamEvent::TunnelMissing, 1024, EDGE), closed);
    assert_eq!(listener::handle_stream(StreamState::Opening, StreamEvent::OpenFailed, 1024, EDGE), closed);
    assert_eq!(listener::handle_stream(StreamState::Opened, StreamEvent::SendFailed, 1024, EDGE), closed);
}

#[test]
fn listener_discards_the_client_when_the_frame_cannot_carry_the_edge() {
    let opened = StreamEvent::StreamOpened { stable_id: 93824, index: 3 };
    let closed = (StreamState::Closed, StreamAction::Discard);
    // "93824-3|127.0.0.1:9000" takes 22 bytes.
    assert_eq!(listener::handle_stream(StreamState::Opening, opened, 21, EDGE), closed);
    assert_eq!(listener::handle_stream(StreamState::Opening, opened, 0, EDGE), closed);
    let long = "h".repeat(1100);
    assert_eq!(listener::handle_stream(StreamState::Opening, opened, 1024, &long), closed);
    assert_eq!(listener::handle_stream(StreamState::Opening, opened, 1024, "edge:80\0"), closed);
    let (state, action) = listener::handle_stream(StreamState::Opening, opened, 22, EDGE);
    assert_eq!(state, StreamState::Opened);
    assert_eq!(
        action,
        StreamAction::SendFrame { stream_id: "93824-3".to_string(), frame: b"93824-3|127.0.0.1:9000".to_vec() }
    );
}

#[test]
fn frame_of_every_stream_makes_the_connector_dial_the_edge_of_its_port() {
    for (stable_id, index) in [(0u64, 0u64), (7, 1), (u64::MAX, u64::MAX)] {
        for edge in ["127.0.0.1:9000", "edge.example:443", ":0"] {
            let opened = StreamEvent::StreamOpened { stable_id, index };
            match listener::handle_stream(StreamState::Opening, opened, 1024, edge).1 {
                StreamAction::SendFrame { stream_id, frame } => {
                    let dial = connector::handle_stream(HandlerState::AwaitingFrame, HandlerEvent::FrameRead(&frame));
                    assert_eq!(
                        dial,
                        (
                            HandlerState::Dialing,
                            HandlerAction::Dial(StreamSession { stream_id, edge_target: edge.to_string() })
                        )
                    );
                }
                other => panic!("{:?}", other),
            }
        }
    }
}

#[test]
fn listener_leaves_aside_what_does_not_belong_to_the_state() {
    let events = [
        StreamEvent::TunnelFound,
        StreamEvent::TunnelMissing,
        StreamEvent::StreamOpened { stable_id: 1, index: 2 },
        StreamEvent::OpenFailed,
        StreamEvent::FrameSent,
        StreamEvent::SendFailed,
        StreamEvent::BridgeStarted,
        StreamEvent::BridgeEnded,
    ];
    for event in events {
        assert_eq!(
            listener::handle_stream(StreamState::Closed, event, 1024, EDGE),
            (StreamState::Closed, StreamAction::Ignore)
        );
    }
    assert_eq!(
        listener::handle_stream(StreamState::Bridging, StreamEvent::TunnelFound, 1024, EDGE),
        (StreamState::Bridging, StreamAction::Ignore)
    );
    assert_eq!(
        listener::handle_stream(StreamState::Accepted, StreamEvent::FrameSent, 1024, EDGE),
        (StreamState::Accepted, StreamAction::Ignore)
    );
}

#[test]
fn connector_stream_dials_what_the_frame_names() {
    let frame = encode_handshake("93824-3", EDGE, 1024).unwrap();
    let (state, action) = connector::handle_stream(HandlerState::AwaitingFrame, HandlerEvent::FrameRead(&frame));
    assert_eq!(state, HandlerState::Dialing);
    assert_eq!(
        action,
        HandlerAction::Dial(StreamSession { stream_id: "93824-3".to_string(), edge_target: EDGE.to_string() })
    );
    let (state, action) = connector::handle_stream(state, HandlerEvent::Dialed);
    assert_eq!((state, action), (HandlerState::Bridging, HandlerAction::StartBridge));
    let (state, action) = connector::handle_stream(state, HandlerEvent::BridgeFinished);
    assert_eq!((state, action), (HandlerState::Closed, HandlerAction::Finish));
}

#[test]
fn connector_stream_ends_with_the_error_that_stopped_it() {
    let closed = |e: HandlerError| (HandlerState::Closed, HandlerAction::Abort(e));
    assert_eq!(
        connector::handle_stream(HandlerState::AwaitingFrame, HandlerEvent::FrameRead(b"no separator")),
        closed(HandlerError::Protocol(FrameError::MissingSeparator))
    );
    assert_eq!(
        connector::handle_stream(HandlerState::AwaitingFrame, HandlerEvent::FrameRead(&[0xff, b'|'])),
        closed(HandlerError::Protocol(FrameError::NotUtf8))
    );
    assert_eq!(
        connector::handle_stream(HandlerState::AwaitingFrame, HandlerEvent::FrameReadFailed),
        closed(HandlerError::FrameUnread)
    );
    assert_eq!(
        connector::handle_stream(HandlerState::Dialing, HandlerEvent::DialFailed),
        closed(HandlerError::DialFailed)
    );
    let bridge = BridgeError::WriteFailed(Direction::StreamToSocket);
    assert_eq!(
        connector::handle_stream(HandlerState::Bridging, HandlerEvent::BridgeFailed(bridge)),
        closed(HandlerError::Bridge(bridge))
    );
}

#[test]
fn connector_stream_leaves_aside_what_does_not_belong_to_the_state() {
    assert_eq!(
        connector::handle_stream(HandlerState::Closed, HandlerEvent::Dialed),
        (HandlerState::Closed, HandlerAction::Ignore)
    );
    assert_eq!(
        connector::handle_stream(HandlerState::Dialing, HandlerEvent::FrameRead(b"1-2|x")),
        (HandlerState::Dialing, HandlerAction::Ignore)
    );
    assert_eq!(
        connector::handle_stream(HandlerState::AwaitingFrame, HandlerEvent::BridgeFinished),
        (HandlerState::AwaitingFrame, HandlerAction::Ignore)
    );
}
