//! The handshake frame: the single fixed-width message that the listener
//! writes on every new stream before any traffic, naming the stream and the
//! edge server that the connector is to dial.
//!
//! The payload is `<stream_id>|<host>:<port>` in UTF-8, followed by NUL bytes
//! up to the frame length. A payload that the frame cannot carry whole and
//! unambiguous is never framed.

use crate::text::{
    append_bytes, ascii_string, decimal_digits, first_index, lemma_ascii_is_utf8, lemma_decimal_digits, lemma_first_index,
    lemma_first_index_unique, push_decimal,
};
use vstd::prelude::*;
use vstd::slice::{slice_subrange, slice_to_vec};
use vstd::utf8::{
    decode_utf8_encode_utf8, encode_utf8, encode_utf8_valid_utf8, is_char_boundary,
    is_char_boundary_iff_not_is_continuation_byte, pop_first_scalar, valid_utf8,
    valid_utf8_concat, valid_utf8_split,
};

verus! {

/// Length of the handshake frame, and of each read buffer of a bridge.
pub const MAX_VECTOR_SIZE: usize = 1024;

/// The byte between the stream id and the edge address: `|`.
pub const SEPARATOR: u8 = 0x7c;

/// The byte between the two numbers of a stream id: `-`.
pub const DASH: u8 = 0x2d;

/// Why a received frame was refused.
#[derive(Debug, Clone, Copy, PartialEq, Eq, Structural)]
pub enum FrameError {
    /// The payload is not well-formed UTF-8.
    NotUtf8,
    /// The payload holds no `|`.
    MissingSeparator,
}

/// What a handshake frame says: which stream this is, and where it leads.
#[derive(Debug, Clone, PartialEq, Eq)]
pub struct StreamSession {
    pub stream_id: String,
    pub edge_target: String,
}

// ---------------------------------------------------------------------------
// Model
// ---------------------------------------------------------------------------
/// The payload of a frame: stream id, separator, edge address.
pub open spec fn frame_payload(stream_id: Seq<u8>, edge: Seq<u8>) -> Seq<u8> {
    stream_id.push(SEPARATOR) + edge
}

/// Whether a frame of `size` bytes can carry this stream id and edge address
/// and give both back when it is read: the payload fits into the frame, the
/// id holds no separator, and the address does not end in NUL, which would
/// be taken for padding.
pub open spec fn carries(stream_id: Seq<u8>, edge: Seq<u8>, size: nat) -> bool {
    &&& stream_id.len() + 1 + edge.len() <= size
    &&& first_index(stream_id, SEPARATOR) is None
    &&& edge.len() > 0 ==> edge.last() != 0
}

/// `payload` followed by NUL bytes up to `size` bytes, for a payload of at
/// most `size` bytes.
pub open spec fn pad_to(payload: Seq<u8>, size: nat) -> Seq<u8> {
    Seq::new(
        size,
        |i: int|
            if i < payload.len() {
                payload[i]
            } else {
                0u8
            },
    )
}

/// The frame of `size` bytes that announces `stream_id` and `edge`, where
/// the frame can carry them.
pub open spec fn frame_bytes(stream_id: Seq<u8>, edge: Seq<u8>, size: nat) -> Seq<u8> {
    pad_to(frame_payload(stream_id, edge), size)
}

/// Length of `frame` without its trailing NUL bytes.
pub open spec fn trimmed_len(frame: Seq<u8>) -> nat
    decreases frame.len(),
{
    if frame.len() == 0 || frame.last() != 0 {
        frame.len()
    } else {
        trimmed_len(frame.drop_last())
    }
}

/// `frame` without its trailing NUL bytes.
pub open spec fn trim_nul(frame: Seq<u8>) -> Seq<u8> {
    frame.take(trimmed_len(frame) as int)
}

/// What a frame decodes to: the bytes before and after the first separator of
/// its trimmed payload, or the reason it is refused.
pub open spec fn decoded(frame: Seq<u8>) -> Result<(Seq<u8>, Seq<u8>), FrameError> {
    let payload = trim_nul(frame);
    if !valid_utf8(payload) {
        Err(FrameError::NotUtf8)
    } else {
        match first_index(payload, SEPARATOR) {
            Some(i) => Ok((payload.take(i), payload.skip(i + 1))),
            None => Err(FrameError::MissingSeparator),
        }
    }
}

/// The id of the stream with index `index` on the connection whose stable id
/// is `stable_id`: both numbers in decimal, joined by a dash.
pub open spec fn stream_id_bytes(stable_id: nat, index: nat) -> Seq<u8> {
    decimal_digits(stable_id).push(DASH) + decimal_digits(index)
}

// ---------------------------------------------------------------------------
// Lemmas
// ---------------------------------------------------------------------------
/// The trimmed length is the one length that is zero or stands behind a
/// non-NUL byte, and behind which every byte is NUL.
pub proof fn lemma_trimmed_len_unique(frame: Seq<u8>, n: int)
    requires
        0 <= n <= frame.len(),
        n > 0 ==> frame[n - 1] != 0,
        forall|i: int| n <= i < frame.len() ==> frame[i] == 0,
    ensures
        trimmed_len(frame) == n,
    decreases frame.len(),
{
    if frame.len() == 0 || frame.last() != 0 {
    } else {
        lemma_trimmed_len_unique(frame.drop_last(), n);
    }
}

/// Well-formed UTF-8 splits at a separator into two well-formed halves.
pub proof fn lemma_split_at_separator(payload: Seq<u8>, i: int)
    requires
        valid_utf8(payload),
        0 <= i < payload.len(),
        payload[i] == SEPARATOR,
    ensures
        valid_utf8(payload.take(i)),
        valid_utf8(payload.skip(i + 1)),
{
    is_char_boundary_iff_not_is_continuation_byte(payload, i);
    assert(is_char_boundary(payload, i));
    valid_utf8_split(payload, i);
    let tail = payload.subrange(i, payload.len() as int);
    assert(tail[0] == SEPARATOR);
    assert(pop_first_scalar(tail) =~= payload.skip(i + 1));
}

/// A stream id is made of digits and one dash: it is ASCII, holds no
/// separator and no NUL.
pub proof fn lemma_stream_id_bytes(stable_id: nat, index: nat)
    ensures
        valid_utf8(stream_id_bytes(stable_id, index)),
        forall|i: int|
            0 <= i < stream_id_bytes(stable_id, index).len() ==> {
                let b = #[trigger] stream_id_bytes(stable_id, index)[i];
                b == DASH || 48 <= b <= 57
            },
        first_index(stream_id_bytes(stable_id, index), SEPARATOR) is None,
{
    let id = stream_id_bytes(stable_id, index);
    lemma_decimal_digits(stable_id);
    lemma_decimal_digits(index);
    let a = decimal_digits(stable_id);
    let b = decimal_digits(index);
    assert forall|i: int| 0 <= i < id.len() implies {
        let x = #[trigger] id[i];
        x == DASH || 48 <= x <= 57
    } by {
        if i < a.len() {
            assert(id[i] == a[i]);
        } else if i == a.len() {
        } else {
            assert(id[i] == b[i - a.len() - 1]);
        }
    }
    lemma_ascii_is_utf8(id);
    lemma_first_index(id, SEPARATOR);
}

// ---------------------------------------------------------------------------
// Encoding
// ---------------------------------------------------------------------------
/// Builds the frame of `size` bytes that announces `stream_id` and
/// `edge_target`. There is no frame for what a frame cannot carry: a payload
/// longer than `size` bytes, a stream id with a separator in it, or an edge
/// address that ends in NUL. Every frame built here reads back as the id and
/// the address it was built from.
pub fn encode_handshake(stream_id: &str, edge_target: &str, size: usize) -> (frame: Option<Vec<u8>>)
    ensures
        match frame {
            Some(bytes) => {
                &&& carries(encode_utf8(stream_id@), encode_utf8(edge_target@), size as nat)
                &&& bytes@ == frame_bytes(
                    encode_utf8(stream_id@),
                    encode_utf8(edge_target@),
                    size as nat,
                )
                &&& decoded(bytes@) == Ok::<(Seq<u8>, Seq<u8>), FrameError>(
                    (encode_utf8(stream_id@), encode_utf8(edge_target@)),
                )
            },
            None => !carries(encode_utf8(stream_id@), encode_utf8(edge_target@), size as nat),
        },
{
    let id = stream_id.as_bytes();
    let edge = edge_target.as_bytes();
    if id.len() >= size || edge.len() > size - id.len() - 1 {
        return None;
    }
    if edge.len() > 0 && edge[edge.len() - 1] == 0 {
        return None;
    }
    let mut i: usize = 0;
    while i < id.len()
        invariant
            i <= id.len(),
            id@ == encode_utf8(stream_id@),
            forall|k: int| 0 <= k < i ==> id@[k] != SEPARATOR,
        decreases id.len() - i,
    {
        if id[i] == SEPARATOR {
            proof {
                lemma_first_index(id@, SEPARATOR);
                assert(id@[i as int] == SEPARATOR);
            }
            return None;
        }
        i += 1;
    }
    proof {
        lemma_first_index(id@, SEPARATOR);
        encode_utf8_valid_utf8(stream_id@);
        encode_utf8_valid_utf8(edge_target@);
        lemma_frame_round_trip(id@, edge@, size as nat);
    }
    let ghost payload = frame_payload(id@, edge@);
    let mut frame: Vec<u8> = Vec::new();
    append_bytes(&mut frame, id);
    frame.push(SEPARATOR);
    append_bytes(&mut frame, edge);
    assert(frame@ =~= payload);
    while frame.len() < size
        invariant
            payload.len() <= frame.len() <= size,
            frame@.take(payload.len() as int) == payload,
            forall|k: int| payload.len() <= k < frame.len() ==> frame@[k] == 0u8,
        decreases size - frame.len(),
    {
        frame.push(0u8);
        assert(frame@.take(payload.len() as int) =~= payload);
    }
    assert(frame@ =~= pad_to(payload, size as nat)) by {
        assert forall|k: int| 0 <= k < frame@.len() implies frame@[k] == pad_to(
            payload,
            size as nat,
        )[k] by {
            if k < payload.len() {
                assert(frame@.take(payload.len() as int)[k] == frame@[k]);
            }
        }
    }
    Some(frame)
}

/// Builds the id of stream `index` on connection `stable_id`.
pub fn stream_id(stable_id: u64, index: u64) -> (id: String)
    ensures
        encode_utf8(id@) == stream_id_bytes(stable_id as nat, index as nat),
{
    let mut bytes: Vec<u8> = Vec::new();
    push_decimal(&mut bytes, stable_id);
    bytes.push(DASH);
    push_decimal(&mut bytes, index);
    proof {
        assert(bytes@ =~= stream_id_bytes(stable_id as nat, index as nat));
        lemma_stream_id_bytes(stable_id as nat, index as nat);
        lemma_ascii_is_utf8(bytes@);
    }
    ascii_string(bytes)
}

// ---------------------------------------------------------------------------
// Decoding
// ---------------------------------------------------------------------------
/// Reads a received frame: trims the NUL padding, checks that the payload is
/// UTF-8 and splits it at the first separator.
pub fn decode_handshake(frame: &[u8]) -> (res: Result<StreamSession, FrameError>)
    ensures
        match res {
            Ok(session) => decoded(frame@) == Ok::<(Seq<u8>, Seq<u8>), FrameError>(
                (encode_utf8(session.stream_id@), encode_utf8(session.edge_target@)),
            ),
            Err(e) => decoded(frame@) == Err::<(Seq<u8>, Seq<u8>), FrameError>(e),
        },
{
    let mut end: usize = frame.len();
    while end > 0 && frame[end - 1] == 0
        invariant
            end <= frame.len(),
            forall|i: int| end <= i < frame.len() ==> frame@[i] == 0,
        decreases end,
    {
        end -= 1;
    }
    proof {
        lemma_trimmed_len_unique(frame@, end as int);
    }
    let payload = slice_subrange(frame, 0, end);
    assert(payload@ == trim_nul(frame@));
    if String::from_utf8(slice_to_vec(payload)).is_err() {
        return Err(FrameError::NotUtf8);
    }
    let mut at: usize = 0;
    while at < end && payload[at] != SEPARATOR
        invariant
            at <= end,
            end == payload@.len(),
            forall|j: int| 0 <= j < at ==> payload@[j] != SEPARATOR,
        decreases end - at,
    {
        at += 1;
    }
    if at == end {
        proof {
            lemma_first_index(payload@, SEPARATOR);
        }
        return Err(FrameError::MissingSeparator);
    }
    proof {
        lemma_first_index_unique(payload@, SEPARATOR, at as int);
        lemma_split_at_separator(payload@, at as int);
        decode_utf8_encode_utf8(payload@.take(at as int));
        decode_utf8_encode_utf8(payload@.skip(at + 1));
    }
    let head = slice_to_vec(slice_subrange(payload, 0, at));
    let tail = slice_to_vec(slice_subrange(payload, at + 1, end));
    match String::from_utf8(head) {
        Ok(stream_id) => match String::from_utf8(tail) {
            Ok(edge_target) => Ok(StreamSession { stream_id, edge_target }),
            Err(_) => Err(FrameError::NotUtf8),
        },
        Err(_) => Err(FrameError::NotUtf8),
    }
}

// ---------------------------------------------------------------------------
// Laws
// ---------------------------------------------------------------------------
/// Frame fidelity. The frame for a stream id and an edge address that a
/// frame can carry decodes to that id and that address.
pub proof fn lemma_frame_round_trip(stream_id: Seq<u8>, edge: Seq<u8>, size: nat)
    requires
        valid_utf8(stream_id),
        valid_utf8(edge),
        carries(stream_id, edge, size),
    ensures
        trim_nul(frame_bytes(stream_id, edge, size)) == frame_payload(stream_id, edge),
        decoded(frame_bytes(stream_id, edge, size)) == Ok::<(Seq<u8>, Seq<u8>), FrameError>(
            (stream_id, edge),
        ),
{
    let payload = frame_payload(stream_id, edge);
    let frame = frame_bytes(stream_id, edge, size);
    let n = stream_id.len() as int;
    assert(payload.len() == n + 1 + edge.len());
    assert(payload[n] == SEPARATOR);
    assert(payload.last() != 0) by {
        if edge.len() > 0 {
            assert(payload.last() == edge.last());
        }
    }
    lemma_trimmed_len_unique(frame, payload.len() as int);
    assert(trim_nul(frame) =~= payload);
    assert(valid_utf8(payload)) by {
        let sep = seq![SEPARATOR];
        lemma_ascii_is_utf8(sep);
        valid_utf8_concat(stream_id, sep);
        assert(stream_id.push(SEPARATOR) =~= stream_id + sep);
        valid_utf8_concat(stream_id + sep, edge);
    }
    lemma_first_index(stream_id, SEPARATOR);
    assert forall|j: int| 0 <= j < n implies payload[j] != SEPARATOR by {
        assert(payload[j] == stream_id[j]);
    }
    lemma_first_index_unique(payload, SEPARATOR, n);
    assert(payload.take(n) =~= stream_id);
    assert(payload.skip(n + 1) =~= edge);
}

/// Frame fidelity for the ids that the listener chooses: the frame written for
/// stream `index` of connection `stable_id` decodes to `<stable_id>-<index>`
/// and the edge address it was given, wherever a frame can carry them.
pub proof fn lemma_stream_frame_round_trip(stable_id: nat, index: nat, edge: Seq<u8>, size: nat)
    requires
        valid_utf8(edge),
        carries(stream_id_bytes(stable_id, index), edge, size),
    ensures
        decoded(frame_bytes(stream_id_bytes(stable_id, index), edge, size)) == Ok::<
            (Seq<u8>, Seq<u8>),
            FrameError,
        >((stream_id_bytes(stable_id, index), edge)),
{
    lemma_stream_id_bytes(stable_id, index);
    lemma_frame_round_trip(stream_id_bytes(stable_id, index), edge, size);
}

} // verus!
