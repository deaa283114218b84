use ap_server::connection::{
    Command, Connection, ConnectionState, Outcome, ABORT_DELAY_MS, CLOSE_DELAY_MS,
    IDLE_TIMEOUT_SECS, PORT, SOCKET_BUFFER_SIZE,
};
use ap_server::failure::Failure;
use ap_server::framing::response;

fn accepted() -> Connection {
    let mut connection = Connection::new();
    connection.advance(Outcome::Completed);
    connection
}

#[test]
fn socket_parameters() {
    assert_eq!(PORT, 8080);
    assert_eq!(SOCKET_BUFFER_SIZE, 1536);
    assert_eq!(IDLE_TIMEOUT_SECS, 10);
    assert_eq!(CLOSE_DELAY_MS, 1000);
    assert_eq!(ABORT_DELAY_MS, 1000);
}

#[test]
fn new_connection_listens_on_port_8080() {
    let connection = Connection::new();
    assert_eq!(connection.state(), ConnectionState::Listening);
    assert_eq!(connection.command(), Some(Command::Accept { port: 8080 }));
    assert_eq!(connection.received(), b"");
    assert!(!connection.is_finished());
}

#[test]
fn accepted_connection_reads_into_whole_buffer() {
    let connection = accepted();
    assert_eq!(connection.state(), ConnectionState::Accepted);
    assert_eq!(connection.command(), Some(Command::Read { max_len: 1024 }));
}

#[test]
fn get_request_is_answered_closed_then_reset() {
    let mut connection = accepted();
    connection.advance(Outcome::Received(b"GET / HTTP/1.1\r\nHost: x\r\n\r\n"));
    assert_eq!(connection.state(), ConnectionState::Responding);
    assert_eq!(connection.command(), Some(Command::Write));
    assert!(response().starts_with(b"HTTP/1.0 200 OK\r\n"));
    assert_eq!(connection.received(), b"GET / HTTP/1.1\r\nHost: x\r\n\r\n");

    connection.advance(Outcome::Completed);
    assert_eq!(connection.state(), ConnectionState::Flushing);
    assert_eq!(connection.command(), Some(Command::Flush));

    connection.advance(Outcome::Completed);
    assert_eq!(connection.state(), ConnectionState::Closing);
    assert_eq!(connection.command(), Some(Command::CloseAfter { delay_ms: 1000 }));

    connection.advance(Outcome::Completed);
    assert_eq!(connection.state(), ConnectionState::Closed);
    assert_eq!(connection.command(), Some(Command::AbortAfter { delay_ms: 1000 }));

    connection.advance(Outcome::Completed);
    assert_eq!(connection.state(), ConnectionState::Aborted);
    assert_eq!(connection.command(), None);
    assert!(connection.is_finished());
}

#[test]
fn silent_client_times_out_and_accept_is_tried_again() {
    let mut connection = Connection::new();
    connection.advance(Outcome::Failed);
    assert_eq!(connection.state(), ConnectionState::Listening);
    assert_eq!(connection.command(), Some(Command::Accept { port: 8080 }));
    connection.advance(Outcome::Failed);
    assert_eq!(connection.state(), ConnectionState::Listening);
    connection.advance(Outcome::Completed);
    assert_eq!(connection.state(), ConnectionState::Accepted);
}

#[test]
fn silent_peer_after_accept_times_out_and_is_torn_down() {
    let mut connection = accepted();
    connection.advance(Outcome::Failed);
    assert_eq!(connection.state(), ConnectionState::Responding);
    assert_eq!(connection.command(), Some(Command::Write));
    connection.advance(Outcome::Failed);
    assert_eq!(connection.command(), Some(Command::Flush));
    connection.advance(Outcome::Failed);
    assert_eq!(connection.command(), Some(Command::CloseAfter { delay_ms: 1000 }));
    connection.advance(Outcome::Completed);
    assert_eq!(connection.command(), Some(Command::AbortAfter { delay_ms: 1000 }));
    connection.advance(Outcome::Completed);
    assert!(connection.is_finished());
}

#[test]
fn second_client_is_not_accepted_while_first_is_served() {
    let mut connection = Connection::new();
    assert_eq!(connection.command(), Some(Command::Accept { port: 8080 }));
    let outcomes = [
        Outcome::Completed,
        Outcome::Received(b"GET / HTTP/1.1\r\n"),
        Outcome::Received(b"Host: x\r\n\r\n"),
        Outcome::Completed,
        Outcome::Completed,
        Outcome::Completed,
        Outcome::Completed,
    ];
    let mut waited_ms = 0;
    for outcome in outcomes {
        connection.advance(outcome);
        match connection.command() {
            Some(Command::Accept { .. }) => panic!("accept while a connection is served"),
            Some(Command::CloseAfter { delay_ms }) | Some(Command::AbortAfter { delay_ms }) => {
                waited_ms += delay_ms
            }
            _ => {}
        }
    }
    assert!(connection.is_finished());
    assert_eq!(waited_ms, 2000);
    let next = Connection::new();
    assert_eq!(next.command(), Some(Command::Accept { port: 8080 }));
}

#[test]
fn terminator_split_over_reads_is_found() {
    let mut connection = accepted();
    connection.advance(Outcome::Received(b"GET / HTTP/1.1\r\nHost: x\r"));
    assert_eq!(connection.state(), ConnectionState::Reading);
    assert_eq!(connection.command(), Some(Command::Read { max_len: 1024 - 24 }));
    connection.advance(Outcome::Received(b"\n\r"));
    assert_eq!(connection.state(), ConnectionState::Reading);
    assert_eq!(connection.command(), Some(Command::Read { max_len: 1024 - 26 }));
    connection.advance(Outcome::Received(b"\n"));
    assert_eq!(connection.state(), ConnectionState::Responding);
    assert_eq!(connection.received(), b"GET / HTTP/1.1\r\nHost: x\r\n\r\n");
}

#[test]
fn later_read_does_not_overwrite_earlier_one() {
    let mut connection = accepted();
    connection.advance(Outcome::Received(b"abc\r\n"));
    connection.advance(Outcome::Received(b"de"));
    assert_eq!(connection.state(), ConnectionState::Reading);
    assert_eq!(connection.received(), b"abc\r\nde");
    connection.advance(Outcome::Received(b"\r\n"));
    assert_eq!(connection.state(), ConnectionState::Reading);
    assert_eq!(connection.received(), b"abc\r\nde\r\n");
}

#[test]
fn terminator_anywhere_in_chunk_ends_reading() {
    let mut connection = accepted();
    connection.advance(Outcome::Received(b"x\r\n\r\ntrailing bytes"));
    assert_eq!(connection.state(), ConnectionState::Responding);
    assert_eq!(connection.received(), b"x\r\n\r\ntrailing bytes");
}

#[test]
fn end_of_stream_without_terminator_is_answered() {
    let mut connection = accepted();
    connection.advance(Outcome::Received(b"GET / HTTP/1.1\r\n"));
    assert_eq!(connection.state(), ConnectionState::Reading);
    connection.advance(Outcome::Received(b""));
    assert_eq!(connection.state(), ConnectionState::Responding);
    assert_eq!(connection.command(), Some(Command::Write));
    assert_eq!(connection.received(), b"GET / HTTP/1.1\r\n");
}

#[test]
fn end_of_stream_before_any_byte_is_answered() {
    let mut connection = accepted();
    connection.advance(Outcome::Received(b""));
    assert_eq!(connection.state(), ConnectionState::Responding);
}

#[test]
fn read_error_is_answered() {
    let mut connection = accepted();
    connection.advance(Outcome::Received(b"GET"));
    connection.advance(Outcome::Failed);
    assert_eq!(connection.state(), ConnectionState::Responding);
    assert_eq!(connection.command(), Some(Command::Write));
}

#[test]
fn full_buffer_without_terminator_is_answered() {
    let mut connection = accepted();
    let chunk = vec![b'a'; 1000];
    connection.advance(Outcome::Received(&chunk));
    assert_eq!(connection.state(), ConnectionState::Reading);
    assert_eq!(connection.command(), Some(Command::Read { max_len: 24 }));
    let rest = vec![b'b'; 24];
    connection.advance(Outcome::Received(&rest));
    assert_eq!(connection.state(), ConnectionState::Responding);
    assert_eq!(connection.received().len(), 1024);
}

#[test]
fn oversized_chunk_is_cut_at_capacity() {
    let mut connection = accepted();
    let chunk = vec![b'a'; 2000];
    connection.advance(Outcome::Received(&chunk));
    assert_eq!(connection.state(), ConnectionState::Responding);
    assert_eq!(connection.received(), &chunk[..1024]);
}

#[test]
fn terminator_behind_capacity_is_not_seen() {
    let mut connection = accepted();
    let mut chunk = vec![b'a'; 1022];
    chunk.extend_from_slice(b"\r\n\r\n");
    connection.advance(Outcome::Received(&chunk));
    assert_eq!(connection.state(), ConnectionState::Responding);
    assert_eq!(connection.received().len(), 1024);
    assert_eq!(&connection.received()[1022..], b"\r\n");
}

#[test]
fn terminator_at_the_very_end_of_capacity_is_found() {
    let mut connection = accepted();
    let mut chunk = vec![b'a'; 1020];
    chunk.extend_from_slice(b"\r\n\r\n");
    connection.advance(Outcome::Received(&chunk));
    assert_eq!(connection.state(), ConnectionState::Responding);
    assert_eq!(connection.received(), &chunk[..]);
}

#[test]
fn outcome_that_does_not_belong_changes_nothing() {
    let mut connection = Connection::new();
    connection.advance(Outcome::Received(b"\r\n\r\n"));
    assert_eq!(connection.state(), ConnectionState::Listening);
    assert_eq!(connection.received(), b"");

    let mut connection = accepted();
    connection.advance(Outcome::Completed);
    assert_eq!(connection.state(), ConnectionState::Accepted);

    connection.advance(Outcome::Received(b"\r\n\r\n"));
    assert_eq!(connection.state(), ConnectionState::Responding);
    connection.advance(Outcome::Received(b"more"));
    assert_eq!(connection.state(), ConnectionState::Responding);
    assert_eq!(connection.received(), b"\r\n\r\n");
}

#[test]
fn finished_connection_stays_finished() {
    let mut connection = accepted();
    connection.advance(Outcome::Received(b""));
    connection.advance(Outcome::Completed);
    connection.advance(Outcome::Completed);
    connection.advance(Outcome::Completed);
    connection.advance(Outcome::Failed);
    assert!(connection.is_finished());
    connection.advance(Outcome::Completed);
    connection.advance(Outcome::Failed);
    connection.advance(Outcome::Received(b"x"));
    assert_eq!(connection.state(), ConnectionState::Aborted);
    assert_eq!(connection.command(), None);
}

#[test]
fn write_puts_the_fixed_response_on_the_wire() {
    assert_eq!(Command::Write.payload(), response());
    assert_eq!(
        Command::Write.payload(),
        b"HTTP/1.0 200 OK\r\n\r\n<html><body><h1>Hello Rust! Hello esp-radio!</h1></body></html>\r\n"
    );
}

#[test]
fn other_commands_put_nothing_on_the_wire() {
    for command in [
        Command::Accept { port: 8080 },
        Command::Read { max_len: 1024 },
        Command::Flush,
        Command::CloseAfter { delay_ms: 1000 },
        Command::AbortAfter { delay_ms: 1000 },
    ] {
        assert_eq!(command.payload(), b"");
    }
}

#[test]
fn restart_after_the_end_listens_with_empty_buffer() {
    let mut connection = accepted();
    connection.advance(Outcome::Received(b"GET / HTTP/1.1\r\n\r\n"));
    connection.advance(Outcome::Completed);
    connection.advance(Outcome::Completed);
    connection.advance(Outcome::Completed);
    connection.advance(Outcome::Completed);
    assert!(connection.is_finished());
    connection.restart();
    assert_eq!(connection.state(), ConnectionState::Listening);
    assert_eq!(connection.command(), Some(Command::Accept { port: 8080 }));
    assert_eq!(connection.received(), b"");
    connection.advance(Outcome::Completed);
    assert_eq!(connection.command(), Some(Command::Read { max_len: 1024 }));
    connection.advance(Outcome::Received(b"ab"));
    assert_eq!(connection.received(), b"ab");
}

#[test]
fn restart_leaves_a_live_connection_alone() {
    let mut connection = accepted();
    connection.advance(Outcome::Received(b"GET"));
    connection.restart();
    assert_eq!(connection.state(), ConnectionState::Reading);
    assert_eq!(connection.received(), b"GET");

    let mut connection = Connection::new();
    connection.restart();
    assert_eq!(connection.state(), ConnectionState::Listening);
}

#[test]
fn each_failure_is_named_for_the_log() {
    let mut connection = Connection::new();
    assert_eq!(connection.advance(Outcome::Failed), Some(Failure::Accept));
    assert_eq!(connection.advance(Outcome::Completed), None);
    assert_eq!(connection.advance(Outcome::Failed), Some(Failure::Read));
    assert_eq!(connection.advance(Outcome::Failed), Some(Failure::Write));
    assert_eq!(connection.advance(Outcome::Failed), Some(Failure::Flush));
    assert_eq!(connection.state(), ConnectionState::Closing);
    assert_eq!(connection.advance(Outcome::Failed), None);
    assert_eq!(connection.advance(Outcome::Failed), None);
    assert!(connection.is_finished());
    assert_eq!(connection.advance(Outcome::Failed), None);
}

#[test]
fn read_failure_after_some_bytes_is_named() {
    let mut connection = accepted();
    assert_eq!(connection.advance(Outcome::Received(b"GET")), None);
    assert_eq!(connection.advance(Outcome::Failed), Some(Failure::Read));
    assert_eq!(connection.advance(Outcome::Completed), None);
    assert_eq!(connection.advance(Outcome::Completed), None);
}
