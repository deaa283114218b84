//! What holds of every connection, whatever its peer sends and however its
//! operations end.

use vstd::prelude::*;
use crate::buffer::{appended, BUFFER_CAPACITY};
use crate::connection::{
    accepted, after_received, command_for, failure_of, payload_of, request_complete, restarted,
    transition, well_formed, Command, ConnectionModel, ConnectionState, Outcome, ABORT_DELAY_MS,
    CLOSE_DELAY_MS, PORT,
};
use crate::failure::severity_of;
use crate::framing::{has_terminator, response_bytes, terminator_at};

verus! {

/// The part of `stream` that fits into the receive buffer.
pub open spec fn head(stream: Seq<u8>) -> Seq<u8> {
    if stream.len() <= BUFFER_CAPACITY {
        stream
    } else {
        stream.take(BUFFER_CAPACITY as int)
    }
}

/// The connection after one read for each of `chunks`, in order.
pub open spec fn after_stream(m: ConnectionModel, chunks: Seq<Seq<u8>>) -> ConnectionModel
    decreases chunks.len(),
{
    if chunks.len() == 0 {
        m
    } else {
        after_stream(after_received(m, chunks.first()), chunks.drop_first())
    }
}

/// Milliseconds that `command` makes the connection wait before it acts.
pub open spec fn delay_of(command: Option<Command>) -> nat {
    match command {
        Some(Command::CloseAfter { delay_ms }) => delay_ms as nat,
        Some(Command::AbortAfter { delay_ms }) => delay_ms as nat,
        _ => 0,
    }
}

/// `outcome` is one that the operation due in `state` can end with.
pub open spec fn expected(state: ConnectionState, outcome: Outcome<'_>) -> bool {
    match state {
        ConnectionState::Listening => outcome is Completed || outcome is Failed,
        ConnectionState::Accepted | ConnectionState::Reading => outcome is Received
            || outcome is Failed,
        ConnectionState::Aborted => false,
        _ => outcome is Completed || outcome is Failed,
    }
}

/// An upper bound on the number of operations between `m` and the end of its
/// connection.
pub open spec fn operations_left(m: ConnectionModel) -> nat {
    match m.state {
        ConnectionState::Listening => (BUFFER_CAPACITY + 6) as nat,
        ConnectionState::Accepted | ConnectionState::Reading => (BUFFER_CAPACITY
            - m.received.len() + 5) as nat,
        ConnectionState::Responding => 4,
        ConnectionState::Flushing => 3,
        ConnectionState::Closing => 2,
        ConnectionState::Closed => 1,
        ConnectionState::Aborted => 0,
    }
}

/// Every outcome leaves a well-formed connection well-formed.
pub proof fn lemma_transition_keeps_well_formed(m: ConnectionModel, outcome: Outcome<'_>)
    requires
        well_formed(m),
    ensures
        well_formed(transition(m, outcome)),
{
}

/// Once the response is due, further reads change nothing.
proof fn lemma_stream_after_reading(m: ConnectionModel, chunks: Seq<Seq<u8>>)
    requires
        !(m.state is Accepted || m.state is Reading),
    ensures
        after_stream(m, chunks) == m,
    decreases chunks.len(),
{
    if chunks.len() > 0 {
        lemma_stream_after_reading(m, chunks.drop_first());
    }
}

/// Reads lead from the read phase to the response and nowhere else.
proof fn lemma_stream_stays_in_exchange(m: ConnectionModel, chunks: Seq<Seq<u8>>)
    requires
        m.state is Accepted || m.state is Reading || m.state is Responding,
    ensures
        ({
            let end = after_stream(m, chunks);
            end.state is Accepted || end.state is Reading || end.state is Responding
        }),
    decreases chunks.len(),
{
    if chunks.len() > 0 {
        lemma_stream_stays_in_exchange(after_received(m, chunks.first()), chunks.drop_first());
    }
}

proof fn lemma_terminated_stream_from(m: ConnectionModel, chunks: Seq<Seq<u8>>)
    requires
        well_formed(m),
        m.state is Accepted || m.state is Reading,
        has_terminator(head(m.received + chunks.flatten())),
    ensures
        after_stream(m, chunks).state is Responding,
    decreases chunks.len(),
{
    if chunks.len() == 0 {
        assert(m.received + chunks.flatten() =~= m.received);
        let at = choose|at: int| terminator_at(m.received, at);
        assert(terminator_at(m.received, at));
    } else {
        let chunk = chunks.first();
        let rest = chunks.drop_first();
        let next = after_received(m, chunk);
        if next.state is Reading {
            assert(next.received == m.received + chunk);
            assert(m.received + chunks.flatten() =~= next.received + rest.flatten());
            lemma_terminated_stream_from(next, rest);
        } else {
            lemma_stream_after_reading(next, rest);
        }
    }
}

/// A request whose header ends within the first `BUFFER_CAPACITY` bytes is
/// answered: after the reads that brought `chunks` the fixed response is due.
/// As this holds of every sequence of chunks, it holds of the shortest one
/// that completes the terminator: the connection reads no further than that.
pub proof fn lemma_terminated_request_is_answered(chunks: Seq<Seq<u8>>)
    requires
        has_terminator(head(chunks.flatten())),
    ensures
        after_stream(accepted(), chunks).state is Responding,
        command_for(after_stream(accepted(), chunks)) == Some(Command::Write),
        payload_of(command_for(after_stream(accepted(), chunks))->Some_0) == response_bytes(),
{
    assert(accepted().received + chunks.flatten() =~= chunks.flatten());
    lemma_terminated_stream_from(accepted(), chunks);
}

/// When the peer stops sending, the response is due at once, whether or not
/// the header has ended: the connection does not wait for bytes that will
/// not come.
pub proof fn lemma_end_of_stream_is_answered(chunks: Seq<Seq<u8>>)
    ensures
        ({
            let end = after_received(after_stream(accepted(), chunks), Seq::empty());
            &&& end.state is Responding
            &&& command_for(end) == Some(Command::Write)
        }),
{
    lemma_stream_stays_in_exchange(accepted(), chunks);
}

/// A read that fails ends the read phase as the end of the stream does.
pub proof fn lemma_read_failure_is_answered(chunks: Seq<Seq<u8>>)
    requires
        !(after_stream(accepted(), chunks).state is Responding),
    ensures
        ({
            let end = transition(after_stream(accepted(), chunks), Outcome::Failed);
            &&& end.state is Responding
            &&& command_for(end) == Some(Command::Write)
        }),
{
    lemma_stream_stays_in_exchange(accepted(), chunks);
}

proof fn lemma_reading_accumulates_from(m: ConnectionModel, chunks: Seq<Seq<u8>>)
    requires
        well_formed(m),
        m.state is Accepted || m.state is Reading,
        after_stream(m, chunks).state is Reading,
    ensures
        after_stream(m, chunks).received == m.received + chunks.flatten(),
    decreases chunks.len(),
{
    if chunks.len() == 0 {
        assert(m.received + chunks.flatten() =~= m.received);
    } else {
        let chunk = chunks.first();
        let rest = chunks.drop_first();
        let next = after_received(m, chunk);
        if next.state is Reading {
            assert(next.received == m.received + chunk);
            lemma_reading_accumulates_from(next, rest);
            assert(m.received + chunks.flatten() =~= next.received + rest.flatten());
        } else {
            lemma_stream_after_reading(next, rest);
        }
    }
}

/// While the read phase goes on, the buffer holds everything that the peer
/// has sent, in the order in which it came: a later read never overwrites an
/// earlier one.
pub proof fn lemma_reading_accumulates(chunks: Seq<Seq<u8>>)
    requires
        after_stream(accepted(), chunks).state is Reading,
    ensures
        after_stream(accepted(), chunks).received == chunks.flatten(),
{
    lemma_reading_accumulates_from(accepted(), chunks);
    assert(accepted().received + chunks.flatten() =~= chunks.flatten());
}

/// The read phase ends when the header has ended or the buffer is full, and
/// not before.
pub proof fn lemma_read_phase_ends_when_complete(m: ConnectionModel, chunk: Seq<u8>)
    requires
        well_formed(m),
        m.state is Accepted || m.state is Reading,
        chunk.len() > 0,
    ensures
        after_received(m, chunk).state is Responding <==> request_complete(
            appended(m.received, chunk),
        ),
        after_received(m, chunk).state is Reading <==> !request_complete(
            appended(m.received, chunk),
        ),
{
}

/// Every operation of an accepted connection brings its end nearer, however
/// the operation ends: no peer can hold the socket for more than a bounded
/// number of operations.
pub proof fn lemma_connection_ends(m: ConnectionModel, outcome: Outcome<'_>)
    requires
        well_formed(m),
        expected(m.state, outcome),
        !(m.state is Listening && outcome is Failed),
    ensures
        operations_left(transition(m, outcome)) < operations_left(m),
{
}

/// Each of `outcomes` in its turn is one that the operation then due can end
/// with, and none is a failed accept.
pub open spec fn run_of(m: ConnectionModel, outcomes: Seq<Outcome<'_>>) -> bool
    decreases outcomes.len(),
{
    outcomes.len() > 0 ==> {
        &&& expected(m.state, outcomes.first())
        &&& !(m.state is Listening && outcomes.first() is Failed)
        &&& run_of(transition(m, outcomes.first()), outcomes.drop_first())
    }
}

/// A connection is over after no more than `operations_left` operations,
/// whatever its peer does: no run of outcomes is longer than that.
pub proof fn lemma_connection_is_bounded(m: ConnectionModel, outcomes: Seq<Outcome<'_>>)
    requires
        well_formed(m),
        run_of(m, outcomes),
    ensures
        outcomes.len() <= operations_left(m),
        operations_left(m) <= BUFFER_CAPACITY + 6,
    decreases outcomes.len(),
{
    if outcomes.len() > 0 {
        lemma_connection_ends(m, outcomes.first());
        lemma_transition_keeps_well_formed(m, outcomes.first());
        lemma_connection_is_bounded(transition(m, outcomes.first()), outcomes.drop_first());
    }
}

/// From the flush on, the socket is reset after two operations that wait
/// `CLOSE_DELAY_MS + ABORT_DELAY_MS` milliseconds between them, whether or
/// not the flush and the graceful close succeeded; and after the reset the
/// next peer is waited for.
pub proof fn lemma_teardown_is_bounded(
    m: ConnectionModel,
    flush: Outcome<'_>,
    close: Outcome<'_>,
    abort: Outcome<'_>,
)
    requires
        m.state is Flushing,
        expected(m.state, flush),
        expected(ConnectionState::Closing, close),
        expected(ConnectionState::Closed, abort),
    ensures
        ({
            let closing = transition(m, flush);
            let closed = transition(closing, close);
            let aborted = transition(closed, abort);
            &&& command_for(closing) == Some(Command::CloseAfter { delay_ms: CLOSE_DELAY_MS })
            &&& command_for(closed) == Some(Command::AbortAfter { delay_ms: ABORT_DELAY_MS })
            &&& aborted.state is Aborted
            &&& command_for(aborted).is_none()
            &&& delay_of(command_for(closing)) + delay_of(command_for(closed)) == 2000
            &&& command_for(restarted(aborted)) == Some(Command::Accept { port: PORT })
        }),
{
}

/// Whatever fails on a connection can be survived, and the connection goes
/// on: a failed accept is tried again, and after any other failure the next
/// operation towards the end of the connection is due.
pub proof fn lemma_failures_are_survivable(m: ConnectionModel, outcome: Outcome<'_>)
    requires
        well_formed(m),
        failure_of(m, outcome) is Some,
    ensures
        !(severity_of(failure_of(m, outcome)->Some_0) is Fatal),
        command_for(transition(m, outcome)) is Some,
        m.state is Listening ==> transition(m, outcome) == m,
        !(m.state is Listening) ==> operations_left(transition(m, outcome)) < operations_left(m),
{
}

/// A peer is waited for in the `Listening` state and in no other: while one
/// connection is served, no second one is accepted.
pub proof fn lemma_accept_only_when_listening(m: ConnectionModel)
    ensures
        command_for(m) is Some && command_for(m)->Some_0 is Accept <==> m.state is Listening,
{
}

} // verus!
