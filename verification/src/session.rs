//! Session server: one listener, one client at a time.
//!
//! The server runs a reconnect-forever outer loop around a per-connection
//! inner loop.  Each outer iteration publishes the current address and a
//! "listening" status, then suspends on accepting one connection on the fixed
//! port; an accept failure just retries the outer loop without tearing the
//! network stack down.  Inside a connection, every non-empty read dispatches
//! the same fixed four-command actuator routine — the payload is deliberately
//! never inspected — and then echoes the bytes back in full; end-of-stream or
//! any read or write error ends the session and returns the server to
//! listening on the same port.  The sockets are collaborators; this module
//! holds the decisions between their answers.

use vstd::prelude::*;
use crate::connect::ConnectionPhase;
use crate::display;
use crate::servo_pio;

verus! {

/// The fixed port the listener accepts connections on.
pub const TCP_PORT: u16 = 1234;

/// Capacity of the transmit, receive and scratch buffers, in bytes.
pub const BUFFER_SIZE: usize = 4096;

/// Idle timeout that forcibly ends an inactive session, in seconds.
pub const IDLE_TIMEOUT_SECS: u64 = 180;

/// Delay between the commands of the fixed routine, in milliseconds.
pub const COMMAND_DELAY_MS: u64 = 100;

/// Angle increment each command of the fixed routine carries, in degrees.
pub const ROUTINE_INCREMENT: i16 = 90;

/// The session server's own state: its phase and the fixed port it listens
/// on.  The port never changes; a closed session returns to listening on the
/// same port without restarting the network stack.  The indicator follows
/// the phase: on while a client is connected, off while listening.
#[derive(Clone, Copy, Debug, PartialEq, Eq, Structural)]
pub struct ServerState {
    pub phase: ConnectionPhase,
    pub port: u16,
}

/// Outcome of one socket read as the collaborator reports it: `n > 0` bytes
/// of data, end-of-stream, or a read error.
#[derive(Clone, Copy, Debug, PartialEq, Eq, Structural)]
pub enum ReadOutcome {
    Data(usize),
    EndOfStream,
    ReadError,
}

/// A well-formed read outcome: a data read carries at least one byte (a read
/// of zero bytes is end-of-stream) and no more than the buffer holds.
pub open spec fn wf_read_outcome(outcome: ReadOutcome) -> bool {
    match outcome {
        ReadOutcome::Data(count) => 1 <= count <= BUFFER_SIZE,
        ReadOutcome::EndOfStream => true,
        ReadOutcome::ReadError => true,
    }
}

/// The fixed actuator routine every non-empty read triggers: pan left, pan
/// right, tilt up, tilt down, each by the same increment, in this order,
/// regardless of payload content or length.
pub open spec fn fixed_routine() -> Seq<servo_pio::Command> {
    seq![
        servo_pio::Command::Left(ROUTINE_INCREMENT),
        servo_pio::Command::Right(ROUTINE_INCREMENT),
        servo_pio::Command::Up(ROUTINE_INCREMENT),
        servo_pio::Command::Down(ROUTINE_INCREMENT),
    ]
}

/// What one read decides: the actuator commands to publish in order, the
/// delay that follows each of them, and how many bytes of the buffer to
/// echo back to the client.
pub struct ReadStep {
    pub commands: Vec<servo_pio::Command>,
    pub delay_ms: u64,
    pub echo_count: usize,
}

impl ServerState {
    /// A server about to listen on the fixed port.
    pub fn new() -> (state: ServerState)
        ensures
            state.phase is Listening,
            state.port == TCP_PORT,
    {
        ServerState { phase: ConnectionPhase::Listening, port: TCP_PORT }
    }

    /// The display events published at the top of each outer iteration,
    /// before the accept: the current address, when the stack reports one,
    /// and then the "listening" status.
    pub fn listen_events(&self, address: Option<display::NetAddress>) -> (events: Vec<
        display::Command>)
        requires
            self.phase is Listening,
            (match address {
                Some(assigned) => assigned.inv(),
                None => true,
            }),
        ensures
            (match address {
                Some(assigned) => events@ =~= seq![
                    display::Command::Addr(assigned),
                    display::Command::Status(display::STATUS_LISTENING),
                ],
                None => events@ =~= seq![display::Command::Status(display::STATUS_LISTENING)],
            }),
            forall|i: int| 0 <= i < events@.len() ==> display::wf_command(#[trigger] events@[i]),
    {
        let mut events: Vec<display::Command> = Vec::new();
        match address {
            Some(assigned) => {
                events.push(display::Command::Addr(assigned));
            },
            None => {},
        }
        events.push(display::Command::Status(display::STATUS_LISTENING));
        events
    }

    /// Consume the outcome of one accept.  On success the server is serving
    /// a client: it reports the "connected" status and drives the indicator
    /// on.  On failure it simply listens again — the network stack is kept.
    pub fn on_accept(&mut self, accepted: bool) -> (event: Option<display::Command>)
        requires
            old(self).phase is Listening,
        ensures
            final(self).port == old(self).port,
            accepted ==> final(self).phase is ClientConnected && event == Some(
                display::Command::Status(display::STATUS_CONNECTED),
            ),
            !accepted ==> final(self).phase is Listening && event is None,
    {
        if accepted {
            self.phase = ConnectionPhase::ClientConnected;
            Some(display::Command::Status(display::STATUS_CONNECTED))
        } else {
            None
        }
    }

    /// Consume the outcome of one read on the connected session.
    ///
    /// Any non-empty read of `n` bytes keeps the session open and dispatches
    /// exactly the four commands of the fixed routine, in order, each to be
    /// followed by the fixed delay, and then the same `n` bytes are echoed
    /// back — whatever the payload held.  End-of-stream and a read error end
    /// the session: no commands, no echo, and the server listens again on
    /// the same port.
    pub fn on_read(&mut self, outcome: ReadOutcome) -> (step: ReadStep)
        requires
            old(self).phase is ClientConnected,
            wf_read_outcome(outcome),
        ensures
            final(self).port == old(self).port,
            step.delay_ms == COMMAND_DELAY_MS,
            (match outcome {
                ReadOutcome::Data(count) => {
                    &&& final(self).phase is ClientConnected
                    &&& step.commands@ =~= fixed_routine()
                    &&& step.echo_count == count
                },
                ReadOutcome::EndOfStream => final(self).phase is Listening && step.commands@.len()
                    == 0 && step.echo_count == 0,
                ReadOutcome::ReadError => final(self).phase is Listening && step.commands@.len()
                    == 0 && step.echo_count == 0,
            }),
    {
        match outcome {
            ReadOutcome::Data(count) => {
                let mut commands: Vec<servo_pio::Command> = Vec::new();
                commands.push(servo_pio::Command::Left(ROUTINE_INCREMENT));
                commands.push(servo_pio::Command::Right(ROUTINE_INCREMENT));
                commands.push(servo_pio::Command::Up(ROUTINE_INCREMENT));
                commands.push(servo_pio::Command::Down(ROUTINE_INCREMENT));
                ReadStep { commands, delay_ms: COMMAND_DELAY_MS, echo_count: count }
            },
            ReadOutcome::EndOfStream => {
                self.phase = ConnectionPhase::Listening;
                ReadStep { commands: Vec::new(), delay_ms: COMMAND_DELAY_MS, echo_count: 0 }
            },
            ReadOutcome::ReadError => {
                self.phase = ConnectionPhase::Listening;
                ReadStep { commands: Vec::new(), delay_ms: COMMAND_DELAY_MS, echo_count: 0 }
            },
        }
    }

    /// Consume the outcome of the echo write.  A write failure ends the
    /// session like a read failure does.
    pub fn on_write_result(&mut self, written: bool)
        requires
            old(self).phase is ClientConnected,
        ensures
            final(self).port == old(self).port,
            written ==> final(self).phase is ClientConnected,
            !written ==> final(self).phase is Listening,
    {
        if !written {
            self.phase = ConnectionPhase::Listening;
        }
    }
}

/// A zeroed fixed-capacity session buffer.
pub fn session_buffer() -> (buffer: Vec<u8>)
    ensures
        buffer@.len() == BUFFER_SIZE,
        forall|i: int| 0 <= i < buffer@.len() ==> buffer@[i] == 0u8,
{
    let mut buffer: Vec<u8> = Vec::new();
    let mut filled: usize = 0;
    while filled < BUFFER_SIZE
        invariant
            filled <= BUFFER_SIZE,
            buffer@.len() == filled,
            forall|i: int| 0 <= i < buffer@.len() ==> buffer@[i] == 0u8,
        decreases BUFFER_SIZE - filled,
    {
        buffer.push(0u8);
        filled = filled + 1;
    }
    buffer
}

/// Progress of echoing one read back to the client with full-write
/// semantics: of the `total` bytes to send, the first `sent` are out.  A
/// short write only advances `sent`; the echo retries until all bytes are
/// sent or the session dies.
#[derive(Clone, Copy, Debug, PartialEq, Eq, Structural)]
pub struct EchoProgress {
    sent: usize,
    total: usize,
}

impl EchoProgress {
    /// Bytes already handed to the transport.
    pub closed spec fn sent(&self) -> int {
        self.sent as int
    }

    /// Bytes the whole echo must send.
    pub closed spec fn total(&self) -> int {
        self.total as int
    }

    /// Never more sent than there is to send.
    pub open spec fn inv(&self) -> bool {
        0 <= self.sent() <= self.total()
    }

    /// A fresh echo of `count` bytes, none sent yet.
    pub fn new(count: usize) -> (progress: EchoProgress)
        ensures
            progress.sent() == 0,
            progress.total() == count,
            progress.inv(),
    {
        EchoProgress { sent: 0, total: count }
    }

    /// Whether every byte is out.
    pub fn is_done(&self) -> (done: bool)
        ensures
            done == (self.sent() == self.total()),
    {
        self.sent == self.total
    }

    /// The bytes still to send: a copy of `buffer[sent..total]`, exactly
    /// what the next underlying write is offered.
    pub fn pending_chunk(&self, buffer: &Vec<u8>) -> (chunk: Vec<u8>)
        requires
            self.inv(),
            self.total() <= buffer@.len(),
        ensures
            chunk@ == buffer@.subrange(self.sent(), self.total()),
    {
        let mut chunk: Vec<u8> = Vec::new();
        let mut at: usize = self.sent;
        while at < self.total
            invariant
                self.sent <= at <= self.total,
                self.total <= buffer@.len(),
                chunk@ =~= buffer@.subrange(self.sent as int, at as int),
            decreases self.total - at,
        {
            chunk.push(buffer[at]);
            at = at + 1;
        }
        proof {
            assert(chunk@ =~= buffer@.subrange(self.sent(), self.total()));
        }
        chunk
    }

    /// Record that the transport accepted `written` more bytes.
    pub fn advance(&mut self, written: usize)
        requires
            old(self).inv(),
            written <= old(self).total() - old(self).sent(),
        ensures
            final(self).sent() == old(self).sent() + written,
            final(self).total() == old(self).total(),
            final(self).inv(),
    {
        self.sent = self.sent + written;
    }
}

/// Sum of a sequence of write sizes.
pub open spec fn total_written(writes: Seq<int>) -> int
    decreases writes.len(),
{
    if writes.len() == 0 {
        0
    } else {
        writes[0] + total_written(writes.drop_first())
    }
}

/// The bytes the transport receives when, starting with `sent` bytes already
/// out, the echo is split into underlying writes of the given sizes: each
/// write takes the next slice of `data`, in order.
pub open spec fn echoed_bytes(data: Seq<u8>, sent: int, writes: Seq<int>) -> Seq<u8>
    decreases writes.len(),
{
    if writes.len() == 0 {
        Seq::empty()
    } else {
        data.subrange(sent, sent + writes[0]) + echoed_bytes(
            data,
            sent + writes[0],
            writes.drop_first(),
        )
    }
}

/// A sum of nonnegative write sizes is nonnegative.
pub proof fn lemma_total_written_nonneg(writes: Seq<int>)
    requires
        forall|i: int| 0 <= i < writes.len() ==> writes[i] >= 0,
    ensures
        total_written(writes) >= 0,
    decreases writes.len(),
{
    if writes.len() > 0 {
        assert(forall|i: int|
            0 <= i < writes.drop_first().len() ==> writes.drop_first()[i] == writes[i + 1]);
        lemma_total_written_nonneg(writes.drop_first());
    }
}

/// Echo fidelity law: however the echo of `data[sent..]` is split across
/// underlying writes — any sizes, any number of them, as long as none is
/// negative and together they cover what is left — the bytes the transport
/// receives are exactly `data[sent..]`, byte for byte.
pub proof fn lemma_echo_fidelity(data: Seq<u8>, sent: int, writes: Seq<int>)
    requires
        0 <= sent <= data.len(),
        forall|i: int| 0 <= i < writes.len() ==> writes[i] >= 0,
        total_written(writes) == data.len() - sent,
    ensures
        echoed_bytes(data, sent, writes) == data.subrange(sent, data.len() as int),
    decreases writes.len(),
{
    if writes.len() == 0 {
        assert(echoed_bytes(data, sent, writes) =~= data.subrange(sent, data.len() as int));
    } else {
        let first: int = writes[0];
        assert(forall|i: int|
            0 <= i < writes.drop_first().len() ==> writes.drop_first()[i] == writes[i + 1]);
        lemma_total_written_nonneg(writes.drop_first());
        assert(total_written(writes.drop_first()) == data.len() - (sent + first));
        assert(sent + first <= data.len());
        lemma_echo_fidelity(data, sent + first, writes.drop_first());
        assert(data.subrange(sent, sent + first) + data.subrange(sent + first, data.len() as int)
            =~= data.subrange(sent, data.len() as int));
    }
}

} // verus!
