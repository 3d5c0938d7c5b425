use sw_tunnel::frame::{
    decode_handshake, encode_handshake, stream_id, FrameError, StreamSession, MAX_VECTOR_SIZE,
};

#[test]
fn frame_round_trip_for_listener_stream() {
    let id = stream_id(140234, 4);
    assert_eq!(id, "140234-4");
    let frame = encode_handshake(&id, "127.0.0.1:9000", MAX_VECTOR_SIZE).unwrap();
    assert_eq!(frame.len(), 1024);
    assert_eq!(&frame[..23], b"140234-4|127.0.0.1:9000");
    assert!(frame[23..].iter().all(|b| *b == 0));
    let session = decode_handshake(&frame).unwrap();
    assert_eq!(session.stream_id, "140234-4");
    assert_eq!(session.edge_target, "127.0.0.1:9000");
}

#[test]
fn stream_id_of_zero_and_of_the_largest_numbers() {
    assert_eq!(stream_id(0, 0), "0-0");
    assert_eq!(stream_id(10, 9), "10-9");
    assert_eq!(
        stream_id(u64::MAX, u64::MAX),
        "18446744073709551615-18446744073709551615"
    );
}

#[test]
fn frame_without_separator_is_refused() {
    let mut frame = vec![0u8; 1024];
    frame[..5].copy_from_slice(b"hello");
    assert_eq!(decode_handshake(&frame), Err(FrameError::MissingSeparator));
}

#[test]
fn frame_of_nul_bytes_only_is_refused() {
    assert_eq!(decode_handshake(&[0u8; 1024]), Err(FrameError::MissingSeparator));
    assert_eq!(decode_handshake(&[]), Err(FrameError::MissingSeparator));
}

#[test]
fn frame_that_is_not_utf8_is_refused() {
    let mut frame = vec![0u8; 1024];
    frame[..6].copy_from_slice(&[b'1', b'-', b'2', b'|', 0xff, 0xfe]);
    assert_eq!(decode_handshake(&frame), Err(FrameError::NotUtf8));
    // Without a separator the bad bytes are still what is reported.
    let mut other = vec![0u8; 16];
    other[..2].copy_from_slice(&[0xc3, 0x28]);
    assert_eq!(decode_handshake(&other), Err(FrameError::NotUtf8));
}

#[test]
fn frame_splits_at_the_first_separator_only() {
    let frame = encode_handshake("7-1", "host|with|bars:80", 64).unwrap();
    assert_eq!(
        decode_handshake(&frame),
        Ok(StreamSession { stream_id: "7-1".to_string(), edge_target: "host|with|bars:80".to_string() })
    );
}

#[test]
fn frame_keeps_nul_bytes_inside_the_payload() {
    let mut frame = vec![0u8; 32];
    frame[..7].copy_from_slice(b"1-2|a\0b");
    let session = decode_handshake(&frame).unwrap();
    assert_eq!(session.stream_id, "1-2");
    assert_eq!(session.edge_target, "a\0b");
}

#[test]
fn frame_with_multibyte_text_round_trips() {
    let frame = encode_handshake("9-3", "b\u{fc}cher.example:443", 128).unwrap();
    let session = decode_handshake(&frame).unwrap();
    assert_eq!(session.edge_target, "b\u{fc}cher.example:443");
}

#[test]
fn payload_longer_than_the_frame_is_not_framed() {
    // 4 + 1 + 17 bytes of payload.
    assert_eq!(encode_handshake("12-5", "edge.example:8080", 21), None);
    assert_eq!(encode_handshake("12-5", "edge.example:8080", 8), None);
    assert_eq!(encode_handshake("12-5", "edge.example:8080", 3), None);
    assert_eq!(encode_handshake("12-5", "x", 0), None);
    assert_eq!(encode_handshake("", "", 0), None);
    let long = "a".repeat(2000);
    assert_eq!(encode_handshake("1-2", &long, MAX_VECTOR_SIZE), None);
    assert!(encode_handshake("12-5", "edge.example:8080", 22).is_some());
}

#[test]
fn payload_that_a_frame_would_not_give_back_is_not_framed() {
    // A separator in the id would move the split.
    assert_eq!(encode_handshake("1|2", "edge:80", 64), None);
    assert_eq!(encode_handshake("|", "", 64), None);
    // A NUL at the end of the address would be taken for padding.
    assert_eq!(encode_handshake("1-2", "edge:80\0", 64), None);
    assert_eq!(encode_handshake("1-2", "\0", 64), None);
    // A NUL inside the address is kept.
    let frame = encode_handshake("1-2", "a\0b", 64).unwrap();
    assert_eq!(decode_handshake(&frame).unwrap().edge_target, "a\0b");
}

#[test]
fn every_frame_reads_back_as_it_was_built() {
    let ids = ["0-0", "18446744073709551615-18446744073709551615", ""];
    let edges = ["127.0.0.1:9000", "", "[::1]:22", "b\u{fc}cher:1", "a|b:2"];
    for id in ids {
        for edge in edges {
            for size in [0usize, 1, 10, 47, 48, 1024] {
                if let Some(frame) = encode_handshake(id, edge, size) {
                    assert_eq!(frame.len(), size);
                    assert!(id.len() + 1 + edge.len() <= size);
                    let session = decode_handshake(&frame).unwrap();
                    assert_eq!(session.stream_id, id);
                    assert_eq!(session.edge_target, edge);
                } else {
                    assert!(id.len() + 1 + edge.len() > size);
                }
            }
        }
    }
}

#[test]
fn payload_that_fills_the_frame_exactly_has_no_padding() {
    let frame = encode_handshake("1-2", "abcd", 8).unwrap();
    assert_eq!(frame, b"1-2|abcd".to_vec());
    let session = decode_handshake(&frame).unwrap();
    assert_eq!(session.edge_target, "abcd");
}

#[test]
fn empty_stream_id_and_empty_edge_are_accepted() {
    let frame = encode_handshake("", "", 4).unwrap();
    assert_eq!(frame, vec![b'|', 0, 0, 0]);
    let session = decode_handshake(&frame).unwrap();
    assert_eq!(session.stream_id, "");
    assert_eq!(session.edge_target, "");
}
