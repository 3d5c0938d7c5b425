use sw_tunnel::bridge::{
    Bridge, BridgeAction, BridgeError, BridgeState, Direction, ReadOutcome,
};

#[test]
fn new_bridge_runs_with_the_given_buffer_length() {
    let bridge = Bridge::new(1024);
    assert!(bridge.is_running());
    assert_eq!(bridge.current_state(), BridgeState::Running);
    assert_eq!(bridge.read_buffer_len(), 1024);
}

#[test]
fn data_is_forwarded_unchanged_in_its_direction() {
    let mut bridge = Bridge::new(1024);
    match bridge.on_read(Direction::SocketToStream, ReadOutcome::from_socket(b"PING\n")) {
        BridgeAction::Forward { direction, data } => {
            assert_eq!(direction, Direction::SocketToStream);
            assert_eq!(data, b"PING\n");
        }
        other => panic!("{:?}", other),
    }
    match bridge.on_read(Direction::StreamToSocket, ReadOutcome::from_stream(Some(&b"PING\n"[..]))) {
        BridgeAction::Forward { direction, data } => {
            assert_eq!(direction, Direction::StreamToSocket);
            assert_eq!(data, b"PING\n");
        }
        other => panic!("{:?}", other),
    }
    assert!(bridge.is_running());
}

#[test]
fn bytes_in_equal_bytes_out_over_many_reads() {
    let mut bridge = Bridge::new(4);
    let input: Vec<u8> = (0u8..200).collect();
    let mut output = Vec::new();
    for chunk in input.chunks(4) {
        if let BridgeAction::Forward { data, .. } =
            bridge.on_read(Direction::StreamToSocket, ReadOutcome::from_stream(Some(chunk)))
        {
            output.extend_from_slice(data);
        }
    }
    assert_eq!(output, input);
}

#[test]
fn empty_socket_read_ends_the_bridge() {
    let mut bridge = Bridge::new(1024);
    assert!(matches!(
        bridge.on_read(Direction::SocketToStream, ReadOutcome::from_socket(&[])),
        BridgeAction::Close
    ));
    assert_eq!(bridge.current_state(), BridgeState::Finished);
    assert!(!bridge.is_running());
}

#[test]
fn finished_stream_ends_the_bridge() {
    let mut bridge = Bridge::new(1024);
    assert!(matches!(
        bridge.on_read(Direction::StreamToSocket, ReadOutcome::from_stream(None)),
        BridgeAction::Close
    ));
    assert_eq!(bridge.current_state(), BridgeState::Finished);
}

#[test]
fn empty_stream_read_is_not_the_end() {
    let mut bridge = Bridge::new(1024);
    assert!(matches!(
        bridge.on_read(Direction::StreamToSocket, ReadOutcome::from_stream(Some(&[][..]))),
        BridgeAction::Forward { direction: Direction::StreamToSocket, data: &[] }
    ));
    assert!(bridge.is_running());
}

#[test]
fn read_error_fails_the_bridge() {
    let mut bridge = Bridge::new(1024);
    let error = BridgeError::ReadFailed(Direction::StreamToSocket);
    match bridge.on_read(Direction::StreamToSocket, ReadOutcome::Failed) {
        BridgeAction::Abort(e) => assert_eq!(e, error),
        other => panic!("{:?}", other),
    }
    assert_eq!(bridge.current_state(), BridgeState::Failed(error));
}

#[test]
fn write_error_fails_the_bridge() {
    let mut bridge = Bridge::new(1024);
    let error = BridgeError::WriteFailed(Direction::SocketToStream);
    match bridge.on_write_failed(Direction::SocketToStream) {
        BridgeAction::Abort(e) => assert_eq!(e, error),
        other => panic!("{:?}", other),
    }
    assert_eq!(bridge.current_state(), BridgeState::Failed(error));
}

#[test]
fn bridge_that_is_over_forwards_nothing() {
    let mut bridge = Bridge::new(1024);
    bridge.on_read(Direction::SocketToStream, ReadOutcome::EndOfStream);
    assert!(matches!(
        bridge.on_read(Direction::StreamToSocket, ReadOutcome::from_socket(b"late")),
        BridgeAction::Nothing
    ));
    assert!(matches!(bridge.on_write_failed(Direction::StreamToSocket), BridgeAction::Nothing));
    assert!(matches!(
        bridge.on_read(Direction::StreamToSocket, ReadOutcome::Failed),
        BridgeAction::Nothing
    ));
    assert_eq!(bridge.current_state(), BridgeState::Finished);
}

#[test]
fn sixty_four_bridges_do_not_mix_their_bytes() {
    let mut bridges: Vec<Bridge> = (0..64).map(|_| Bridge::new(1024)).collect();
    let mut echoed: Vec<Vec<u8>> = vec![Vec::new(); 64];
    for round in 0u8..3 {
        for (client, bridge) in bridges.iter_mut().enumerate() {
            let message = [b'P', client as u8, round, b'\n'];
            // What the manager client wrote goes to the stream ...
            let sent = match bridge.on_read(Direction::SocketToStream, ReadOutcome::from_socket(&message)) {
                BridgeAction::Forward { direction: Direction::SocketToStream, data } => data.to_vec(),
                other => panic!("{:?}", other),
            };
            // ... and what the edge echoes comes back on the same bridge.
            match bridge.on_read(Direction::StreamToSocket, ReadOutcome::from_stream(Some(&sent[..]))) {
                BridgeAction::Forward { direction: Direction::StreamToSocket, data } => {
                    echoed[client].extend_from_slice(data)
                }
                other => panic!("{:?}", other),
            }
        }
    }
    for (client, bytes) in echoed.iter().enumerate() {
        let c = client as u8;
        assert_eq!(bytes, &vec![b'P', c, 0, b'\n', b'P', c, 1, b'\n', b'P', c, 2, b'\n']);
    }
}
