//! The life of one TCP connection: accept, read until the header ends,
//! respond, flush, close, abort.
//!
//! A [`Connection`] never touches a socket. It names the operation that is due
//! ([`Connection::command`]) and is told how that operation ended
//! ([`Connection::advance`]).

use vstd::prelude::*;
use crate::buffer::{appended, ConnectionBuffer, BUFFER_CAPACITY};
use crate::failure::Failure;
use crate::framing::{contains_terminator, has_terminator, response, response_bytes};

verus! {

/// The port the server listens on.
pub const PORT: u16 = 8080;

/// Size of the socket's send buffer and of its receive buffer.
pub const SOCKET_BUFFER_SIZE: usize = 1536;

/// Seconds without traffic after which the socket gives up.
pub const IDLE_TIMEOUT_SECS: u64 = 10;

/// Milliseconds between the flush and the graceful close.
pub const CLOSE_DELAY_MS: u64 = 1000;

/// Milliseconds between the graceful close and the abort.
pub const ABORT_DELAY_MS: u64 = 1000;

/// Where a connection stands.
#[derive(Clone, Copy, Debug, PartialEq, Eq, Structural)]
pub enum ConnectionState {
    /// Waiting for a peer.
    Listening,
    /// A peer is connected and nothing has been received yet.
    Accepted,
    /// Part of a request has been received and its header has not ended.
    Reading,
    /// The response is to be written.
    Responding,
    /// The response has been handed to the socket and is to be flushed.
    Flushing,
    /// The exchange is over; the graceful close is due.
    Closing,
    /// The write side is closed; the abort is due.
    Closed,
    /// The socket has been reset and can be used again.
    Aborted,
}

/// An operation on the socket.
#[derive(Clone, Copy, Debug, PartialEq, Eq, Structural)]
pub enum Command {
    /// Wait for a peer on `port`.
    Accept { port: u16 },
    /// Read at most `max_len` bytes.
    Read { max_len: usize },
    /// Write the whole fixed response.
    Write,
    /// Flush what was written.
    Flush,
    /// Wait `delay_ms` milliseconds, then close gracefully.
    CloseAfter { delay_ms: u64 },
    /// Wait `delay_ms` milliseconds, then reset the socket.
    AbortAfter { delay_ms: u64 },
}

/// How an operation ended.
#[derive(Clone, Copy, Debug)]
pub enum Outcome<'a> {
    /// It succeeded, and brought no data.
    Completed,
    /// It failed.
    Failed,
    /// A read brought these bytes; none means that the peer has finished
    /// sending.
    Received(&'a [u8]),
}

/// A connection as the contracts see it.
pub ghost struct ConnectionModel {
    pub state: ConnectionState,
    pub received: Seq<u8>,
}

/// A connection that waits for its peer.
pub open spec fn listening() -> ConnectionModel {
    ConnectionModel { state: ConnectionState::Listening, received: Seq::empty() }
}

/// A connection whose peer has just arrived.
pub open spec fn accepted() -> ConnectionModel {
    ConnectionModel { state: ConnectionState::Accepted, received: Seq::empty() }
}

/// What every connection satisfies: nothing is held before the first read,
/// and while reading goes on the buffer has room and holds no terminator.
pub open spec fn well_formed(m: ConnectionModel) -> bool {
    &&& m.received.len() <= BUFFER_CAPACITY
    &&& (m.state is Listening || m.state is Accepted) ==> m.received.len() == 0
    &&& m.state is Reading ==> 0 < m.received.len() < BUFFER_CAPACITY && !has_terminator(
        m.received,
    )
}

/// The read phase is over once the header has ended or the buffer is full.
pub open spec fn request_complete(received: Seq<u8>) -> bool {
    has_terminator(received) || received.len() >= BUFFER_CAPACITY
}

/// The connection after an operation that succeeded without data.
pub open spec fn after_completed(m: ConnectionModel) -> ConnectionModel {
    match m.state {
        ConnectionState::Listening => ConnectionModel { state: ConnectionState::Accepted, ..m },
        ConnectionState::Responding => ConnectionModel { state: ConnectionState::Flushing, ..m },
        ConnectionState::Flushing => ConnectionModel { state: ConnectionState::Closing, ..m },
        ConnectionState::Closing => ConnectionModel { state: ConnectionState::Closed, ..m },
        ConnectionState::Closed => ConnectionModel { state: ConnectionState::Aborted, ..m },
        _ => m,
    }
}

/// The connection after an operation that failed. A failed accept is tried
/// again; any other failure moves the connection on towards its end.
pub open spec fn after_failed(m: ConnectionModel) -> ConnectionModel {
    match m.state {
        ConnectionState::Accepted | ConnectionState::Reading => ConnectionModel {
            state: ConnectionState::Responding,
            ..m
        },
        ConnectionState::Responding => ConnectionModel { state: ConnectionState::Flushing, ..m },
        ConnectionState::Flushing => ConnectionModel { state: ConnectionState::Closing, ..m },
        ConnectionState::Closing => ConnectionModel { state: ConnectionState::Closed, ..m },
        ConnectionState::Closed => ConnectionModel { state: ConnectionState::Aborted, ..m },
        _ => m,
    }
}

/// The connection after a read that brought `chunk`.
pub open spec fn after_received(m: ConnectionModel, chunk: Seq<u8>) -> ConnectionModel {
    if !(m.state is Accepted || m.state is Reading) {
        m
    } else if chunk.len() == 0 {
        ConnectionModel { state: ConnectionState::Responding, ..m }
    } else {
        let received = appended(m.received, chunk);
        ConnectionModel {
            state: if request_complete(received) {
                ConnectionState::Responding
            } else {
                ConnectionState::Reading
            },
            received,
        }
    }
}

/// The connection after `outcome`. An outcome that does not belong to the
/// operation that is due changes nothing.
pub open spec fn transition(m: ConnectionModel, outcome: Outcome<'_>) -> ConnectionModel {
    match outcome {
        Outcome::Completed => after_completed(m),
        Outcome::Failed => after_failed(m),
        Outcome::Received(chunk) => after_received(m, chunk@),
    }
}

/// The failure that `outcome` reports of the operation that is due; none where
/// the operation did not fail.
pub open spec fn failure_of(m: ConnectionModel, outcome: Outcome<'_>) -> Option<Failure> {
    if outcome is Failed {
        match m.state {
            ConnectionState::Listening => Some(Failure::Accept),
            ConnectionState::Accepted | ConnectionState::Reading => Some(Failure::Read),
            ConnectionState::Responding => Some(Failure::Write),
            ConnectionState::Flushing => Some(Failure::Flush),
            _ => None,
        }
    } else {
        None
    }
}

/// The operation that is due; none once the connection is over.
pub open spec fn command_for(m: ConnectionModel) -> Option<Command> {
    match m.state {
        ConnectionState::Listening => Some(Command::Accept { port: PORT }),
        ConnectionState::Accepted | ConnectionState::Reading => Some(
            Command::Read { max_len: (BUFFER_CAPACITY - m.received.len()) as usize },
        ),
        ConnectionState::Responding => Some(Command::Write),
        ConnectionState::Flushing => Some(Command::Flush),
        ConnectionState::Closing => Some(Command::CloseAfter { delay_ms: CLOSE_DELAY_MS }),
        ConnectionState::Closed => Some(Command::AbortAfter { delay_ms: ABORT_DELAY_MS }),
        ConnectionState::Aborted => None,
    }
}

/// The bytes that `command` puts on the wire: the fixed response for a write,
/// nothing for every other operation.
pub open spec fn payload_of(command: Command) -> Seq<u8> {
    match command {
        Command::Write => response_bytes(),
        _ => Seq::empty(),
    }
}

/// The connection that follows `m` on the same socket: a fresh one once `m` is
/// over, and `m` itself as long as it is not.
pub open spec fn restarted(m: ConnectionModel) -> ConnectionModel {
    if m.state is Aborted {
        listening()
    } else {
        m
    }
}

impl Command {
    /// The bytes that this operation puts on the wire.
    pub fn payload(&self) -> (bytes: &'static [u8])
        ensures
            bytes@ == payload_of(*self),
    {
        match self {
            Command::Write => response(),
            _ => {
                let nothing: &'static [u8] = &[];
                assert(nothing@ =~= Seq::<u8>::empty());
                nothing
            },
        }
    }
}

/// One connection, from the wait for a peer to the reset of the socket.
pub struct Connection {
    state: ConnectionState,
    buffer: ConnectionBuffer,
}

impl View for Connection {
    type V = ConnectionModel;

    closed spec fn view(&self) -> ConnectionModel {
        ConnectionModel { state: self.state, received: self.buffer@ }
    }
}

impl Connection {
    /// A connection that waits for its peer, with an empty buffer.
    pub fn new() -> (connection: Connection)
        ensures
            connection@ == listening(),
    {
        Connection { state: ConnectionState::Listening, buffer: ConnectionBuffer::new() }
    }

    /// Where the connection stands.
    pub fn state(&self) -> (state: ConnectionState)
        ensures
            state == self@.state,
    {
        self.state
    }

    /// The request bytes received so far.
    pub fn received(&self) -> (bytes: &[u8])
        ensures
            bytes@ == self@.received,
    {
        self.buffer.as_slice()
    }

    /// Whether the connection is over and the socket can serve the next one.
    pub fn is_finished(&self) -> (finished: bool)
        ensures
            finished == (self@.state is Aborted),
    {
        match self.state {
            ConnectionState::Aborted => true,
            _ => false,
        }
    }

    /// The operation that is due; none once the connection is over.
    pub fn command(&self) -> (command: Option<Command>)
        ensures
            command == command_for(self@),
    {
        match self.state {
            ConnectionState::Listening => Some(Command::Accept { port: PORT }),
            ConnectionState::Accepted | ConnectionState::Reading => Some(
                Command::Read { max_len: self.buffer.remaining() },
            ),
            ConnectionState::Responding => Some(Command::Write),
            ConnectionState::Flushing => Some(Command::Flush),
            ConnectionState::Closing => Some(Command::CloseAfter { delay_ms: CLOSE_DELAY_MS }),
            ConnectionState::Closed => Some(Command::AbortAfter { delay_ms: ABORT_DELAY_MS }),
            ConnectionState::Aborted => None,
        }
    }

    /// Begins the next connection on the same socket: once this one is over,
    /// the buffer is emptied and a peer is waited for again. A connection that
    /// is not over is left as it is.
    pub fn restart(&mut self)
        ensures
            final(self)@ == restarted(old(self)@),
            well_formed(old(self)@) ==> well_formed(final(self)@),
    {
        if self.is_finished() {
            self.buffer.reset();
            self.state = ConnectionState::Listening;
        }
    }

    /// Takes note of how the operation that was due ended, and returns the
    /// failure to log where it failed. No failure ends the connection early:
    /// it goes on to its next operation.
    pub fn advance(&mut self, outcome: Outcome<'_>) -> (failure: Option<Failure>)
        ensures
            final(self)@ == transition(old(self)@, outcome),
            failure == failure_of(old(self)@, outcome),
            well_formed(old(self)@) ==> well_formed(final(self)@),
    {
        let failure = match (outcome, self.state) {
            (Outcome::Failed, ConnectionState::Listening) => Some(Failure::Accept),
            (Outcome::Failed, ConnectionState::Accepted) => Some(Failure::Read),
            (Outcome::Failed, ConnectionState::Reading) => Some(Failure::Read),
            (Outcome::Failed, ConnectionState::Responding) => Some(Failure::Write),
            (Outcome::Failed, ConnectionState::Flushing) => Some(Failure::Flush),
            _ => None,
        };
        match outcome {
            Outcome::Completed => {
                self.state = match self.state {
                    ConnectionState::Listening => ConnectionState::Accepted,
                    ConnectionState::Responding => ConnectionState::Flushing,
                    ConnectionState::Flushing => ConnectionState::Closing,
                    ConnectionState::Closing => ConnectionState::Closed,
                    ConnectionState::Closed => ConnectionState::Aborted,
                    other => other,
                };
            },
            Outcome::Failed => {
                self.state = match self.state {
                    ConnectionState::Accepted | ConnectionState::Reading => {
                        ConnectionState::Responding
                    },
                    ConnectionState::Responding => ConnectionState::Flushing,
                    ConnectionState::Flushing => ConnectionState::Closing,
                    ConnectionState::Closing => ConnectionState::Closed,
                    ConnectionState::Closed => ConnectionState::Aborted,
                    other => other,
                };
            },
            Outcome::Received(chunk) => {
                let reading = match self.state {
                    ConnectionState::Accepted | ConnectionState::Reading => true,
                    _ => false,
                };
                if reading {
                    self.state = ConnectionState::Responding;
                    if chunk.len() > 0 {
                        self.buffer.append(chunk);
                        let complete = self.buffer.is_full() || contains_terminator(
                            self.buffer.as_slice(),
                        );
                        if !complete {
                            self.state = ConnectionState::Reading;
                        }
                    }
                }
            },
        }
        failure
    }
}

} // verus!
