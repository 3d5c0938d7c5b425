//! The byte bridge: full-duplex copy between one QUIC stream and one TCP
//! socket.
//!
//! The caller reads from both sides at once into one buffer per direction
//! and reports what each read returned. The bridge answers with what to do:
//! forward exactly those bytes to the other side, close both sides at the
//! first end of stream, or give up at the first error. It never holds bytes
//! back: what is read is forwarded before the next read of that direction.

use vstd::prelude::*;

verus! {

/// One of the two directions of a bridge.
#[derive(Debug, Clone, Copy, PartialEq, Eq, Structural)]
pub enum Direction {
    /// From the QUIC stream to the TCP socket.
    StreamToSocket,
    /// From the TCP socket to the QUIC stream.
    SocketToStream,
}

/// Why a bridge gave up.
#[derive(Debug, Clone, Copy, PartialEq, Eq, Structural)]
pub enum BridgeError {
    /// Reading from the source of this direction failed.
    ReadFailed(Direction),
    /// Writing to the sink of this direction failed.
    WriteFailed(Direction),
}

/// Where a bridge stands.
#[derive(Debug, Clone, Copy, PartialEq, Eq, Structural)]
pub enum BridgeState {
    /// Both directions are copying.
    Running,
    /// One side reported end of stream; the bridge is over.
    Finished,
    /// A read or write failed; the bridge is over.
    Failed(BridgeError),
}

/// What one read returned.
#[derive(Debug, Clone, Copy)]
pub enum ReadOutcome<'a> {
    /// These bytes were read.
    Data(&'a [u8]),
    /// The source has no more data.
    EndOfStream,
    /// The read failed.
    Failed,
}

/// What the caller is to do next.
#[derive(Debug, Clone, Copy)]
pub enum BridgeAction<'a> {
    /// Write all of `data` to the sink of `direction`, then go on reading.
    Forward { direction: Direction, data: &'a [u8] },
    /// Close both sides: the bridge ended in good order.
    Close,
    /// Close both sides and report the error.
    Abort(BridgeError),
    /// The bridge is already over: drop what was read.
    Nothing,
}

// ---------------------------------------------------------------------------
// Model
// ---------------------------------------------------------------------------
/// What can happen to a bridge.
pub enum BridgeEvent {
    /// A read of this direction returned these bytes.
    Data(Direction, Seq<u8>),
    /// The source of this direction has no more data.
    EndOfStream(Direction),
    /// A read of this direction failed.
    ReadFailed(Direction),
    /// A write of this direction failed.
    WriteFailed(Direction),
}

/// What the bridge asks for in answer to an event.
pub enum BridgeEffect {
    Forward(Direction, Seq<u8>),
    Close,
    Abort(BridgeError),
    Nothing,
}

/// The event that a read outcome stands for.
pub open spec fn read_event(direction: Direction, outcome: ReadOutcome<'_>) -> BridgeEvent {
    match outcome {
        ReadOutcome::Data(data) => BridgeEvent::Data(direction, data@),
        ReadOutcome::EndOfStream => BridgeEvent::EndOfStream(direction),
        ReadOutcome::Failed => BridgeEvent::ReadFailed(direction),
    }
}

/// The effect that an action stands for.
pub open spec fn effect_of(action: BridgeAction<'_>) -> BridgeEffect {
    match action {
        BridgeAction::Forward { direction, data } => BridgeEffect::Forward(direction, data@),
        BridgeAction::Close => BridgeEffect::Close,
        BridgeAction::Abort(e) => BridgeEffect::Abort(e),
        BridgeAction::Nothing => BridgeEffect::Nothing,
    }
}

/// One step of a bridge: the state after `event`, and the effect asked for.
pub open spec fn step(state: BridgeState, event: BridgeEvent) -> (BridgeState, BridgeEffect) {
    match state {
        BridgeState::Running => match event {
            BridgeEvent::Data(direction, data) => (
                BridgeState::Running,
                BridgeEffect::Forward(direction, data),
            ),
            BridgeEvent::EndOfStream(_) => (BridgeState::Finished, BridgeEffect::Close),
            BridgeEvent::ReadFailed(direction) => (
                BridgeState::Failed(BridgeError::ReadFailed(direction)),
                BridgeEffect::Abort(BridgeError::ReadFailed(direction)),
            ),
            BridgeEvent::WriteFailed(direction) => (
                BridgeState::Failed(BridgeError::WriteFailed(direction)),
                BridgeEffect::Abort(BridgeError::WriteFailed(direction)),
            ),
        },
        _ => (state, BridgeEffect::Nothing),
    }
}

/// The state after a sequence of events.
pub open spec fn state_after(state: BridgeState, events: Seq<BridgeEvent>) -> BridgeState
    decreases events.len(),
{
    if events.len() == 0 {
        state
    } else {
        state_after(step(state, events[0]).0, events.drop_first())
    }
}

/// The bytes that an effect asks to have written in `direction`.
pub open spec fn bytes_for(effect: BridgeEffect, direction: Direction) -> Seq<u8> {
    match effect {
        BridgeEffect::Forward(d, data) if d == direction => data,
        _ => Seq::empty(),
    }
}

/// The bytes that a bridge, started in `state`, asks to have written in
/// `direction` over a sequence of events.
pub open spec fn forwarded(state: BridgeState, events: Seq<BridgeEvent>, direction: Direction) -> Seq<
    u8,
>
    decreases events.len(),
{
    if events.len() == 0 {
        Seq::empty()
    } else {
        let (next, effect) = step(state, events[0]);
        bytes_for(effect, direction) + forwarded(next, events.drop_first(), direction)
    }
}

/// Whether an event ends a running bridge.
pub open spec fn is_terminal(event: BridgeEvent) -> bool {
    !(event is Data)
}

/// The bytes read in `direction` before the first event that ends the bridge.
pub open spec fn received(events: Seq<BridgeEvent>, direction: Direction) -> Seq<u8>
    decreases events.len(),
{
    if events.len() == 0 {
        Seq::empty()
    } else if is_terminal(events[0]) {
        Seq::empty()
    } else {
        let rest = received(events.drop_first(), direction);
        match events[0] {
            BridgeEvent::Data(d, data) if d == direction => data + rest,
            _ => rest,
        }
    }
}

// ---------------------------------------------------------------------------
// The bridge
// ---------------------------------------------------------------------------
impl<'a> ReadOutcome<'a> {
    /// Reads what a read on the TCP socket returned: no bytes means that the
    /// peer has closed.
    pub fn from_socket(data: &'a [u8]) -> (outcome: ReadOutcome<'a>)
        ensures
            data@.len() == 0 ==> outcome is EndOfStream,
            data@.len() > 0 ==> outcome == ReadOutcome::Data(data),
    {
        if data.len() == 0 {
            ReadOutcome::EndOfStream
        } else {
            ReadOutcome::Data(data)
        }
    }

    /// Reads what a read on the QUIC stream returned: `None` means that the
    /// stream is finished.
    pub fn from_stream(data: Option<&'a [u8]>) -> (outcome: ReadOutcome<'a>)
        ensures
            match data {
                Some(bytes) => outcome == ReadOutcome::Data(bytes),
                None => outcome is EndOfStream,
            },
    {
        match data {
            Some(bytes) => ReadOutcome::Data(bytes),
            None => ReadOutcome::EndOfStream,
        }
    }
}

/// One bridge between a QUIC stream and a TCP socket.
pub struct Bridge {
    state: BridgeState,
    buffer_len: usize,
}

impl Bridge {
    /// Where the bridge stands.
    pub closed spec fn state(&self) -> BridgeState {
        self.state
    }

    /// Length of the read buffer of each direction.
    pub closed spec fn buffer_len(&self) -> usize {
        self.buffer_len
    }

    /// A running bridge that reads into buffers of `max_vector_size` bytes.
    pub fn new(max_vector_size: usize) -> (bridge: Bridge)
        ensures
            bridge.state() == BridgeState::Running,
            bridge.buffer_len() == max_vector_size,
    {
        Bridge { state: BridgeState::Running, buffer_len: max_vector_size }
    }

    /// Where the bridge stands.
    pub fn current_state(&self) -> (state: BridgeState)
        ensures
            state == self.state(),
    {
        self.state
    }

    /// Length of the one read buffer that each direction may use.
    pub fn read_buffer_len(&self) -> (len: usize)
        ensures
            len == self.buffer_len(),
    {
        self.buffer_len
    }

    /// Whether the bridge is still copying.
    pub fn is_running(&self) -> (running: bool)
        ensures
            running == (self.state() == BridgeState::Running),
    {
        match self.state {
            BridgeState::Running => true,
            _ => false,
        }
    }

    /// Takes what a read of `direction` returned and says what to do with it.
    pub fn on_read<'a>(&mut self, direction: Direction, outcome: ReadOutcome<'a>) -> (action:
        BridgeAction<'a>)
        ensures
            (final(self).state(), effect_of(action)) == step(
                old(self).state(),
                read_event(direction, outcome),
            ),
            final(self).buffer_len() == old(self).buffer_len(),
            old(self).state() == BridgeState::Running ==> (outcome matches ReadOutcome::Data(data)
                ==> action == (BridgeAction::Forward { direction, data })),
    {
        match self.state {
            BridgeState::Running => match outcome {
                ReadOutcome::Data(data) => BridgeAction::Forward { direction, data },
                ReadOutcome::EndOfStream => {
                    self.state = BridgeState::Finished;
                    BridgeAction::Close
                },
                ReadOutcome::Failed => {
                    let error = BridgeError::ReadFailed(direction);
                    self.state = BridgeState::Failed(error);
                    BridgeAction::Abort(error)
                },
            },
            _ => BridgeAction::Nothing,
        }
    }

    /// Takes note that the write asked for in `direction` failed.
    pub fn on_write_failed(&mut self, direction: Direction) -> (action: BridgeAction<'static>)
        ensures
            (final(self).state(), effect_of(action)) == step(
                old(self).state(),
                BridgeEvent::WriteFailed(direction),
            ),
            final(self).buffer_len() == old(self).buffer_len(),
    {
        match self.state {
            BridgeState::Running => {
                let error = BridgeError::WriteFailed(direction);
                self.state = BridgeState::Failed(error);
                BridgeAction::Abort(error)
            },
            _ => BridgeAction::Nothing,
        }
    }
}

// ---------------------------------------------------------------------------
// Laws
// ---------------------------------------------------------------------------
/// A bridge that is over stays as it is and asks for nothing.
pub proof fn lemma_over_is_final(state: BridgeState, events: Seq<BridgeEvent>, direction: Direction)
    requires
        state != BridgeState::Running,
    ensures
        state_after(state, events) == state,
        forwarded(state, events, direction) == Seq::<u8>::empty(),
    decreases events.len(),
{
    if events.len() > 0 {
        lemma_over_is_final(state, events.drop_first(), direction);
    }
}

/// Faithful copy. Over any history, a bridge asks to have written in each
/// direction exactly the bytes that were read in that direction before the
/// first end of stream or error, in the order in which they were read.
pub proof fn lemma_bridge_copies_faithfully(events: Seq<BridgeEvent>, direction: Direction)
    ensures
        forwarded(BridgeState::Running, events, direction) == received(events, direction),
    decreases events.len(),
{
    if events.len() > 0 {
        let rest = events.drop_first();
        if is_terminal(events[0]) {
            lemma_over_is_final(step(BridgeState::Running, events[0]).0, rest, direction);
        } else {
            lemma_bridge_copies_faithfully(rest, direction);
        }
    }
}

} // verus!
