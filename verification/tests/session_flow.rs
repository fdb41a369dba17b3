use tcp_server::display;
use tcp_server::servo_pio;
use tcp_server::connect::ConnectionPhase;
use tcp_server::session::{
    EchoProgress, ReadOutcome, ServerState, BUFFER_SIZE, COMMAND_DELAY_MS, TCP_PORT,
};

fn routine() -> Vec<servo_pio::Command> {
    vec![
        servo_pio::Command::Left(90),
        servo_pio::Command::Right(90),
        servo_pio::Command::Up(90),
        servo_pio::Command::Down(90),
    ]
}

#[test]
fn server_starts_listening_on_fixed_port() {
    let server = ServerState::new();
    assert_eq!(server.phase, ConnectionPhase::Listening);
    assert_eq!(server.port, 1234);
    assert_eq!(TCP_PORT, 1234);
}

#[test]
fn listen_events_without_address() {
    let server = ServerState::new();
    let events = server.listen_events(None);
    assert_eq!(events, vec![display::Command::Status(16)]);
}

#[test]
fn listen_events_with_address() {
    let server = ServerState::new();
    let address = display::NetAddress::new(192, 168, 1, 7, 24);
    let events = server.listen_events(Some(address));
    assert_eq!(
        events,
        vec![display::Command::Addr(address), display::Command::Status(16)]
    );
}

#[test]
fn failed_accept_keeps_listening() {
    let mut server = ServerState::new();
    let event = server.on_accept(false);
    assert_eq!(event, None);
    assert_eq!(server.phase, ConnectionPhase::Listening);
    assert_eq!(server.port, 1234);
}

#[test]
fn accept_reports_connected_status() {
    let mut server = ServerState::new();
    let event = server.on_accept(true);
    assert_eq!(event, Some(display::Command::Status(17)));
    assert_eq!(server.phase, ConnectionPhase::ClientConnected);
}

#[test]
fn nonempty_read_triggers_fixed_routine() {
    let mut server = ServerState::new();
    server.on_accept(true);
    let step = server.on_read(ReadOutcome::Data(1));
    assert_eq!(step.commands, routine());
    assert_eq!(step.delay_ms, 100);
    assert_eq!(step.echo_count, 1);
    assert_eq!(server.phase, ConnectionPhase::ClientConnected);
    assert_eq!(COMMAND_DELAY_MS, 100);
}

#[test]
fn routine_ignores_payload_length() {
    for count in [1usize, 2, 17, 1000, BUFFER_SIZE] {
        let mut server = ServerState::new();
        server.on_accept(true);
        let step = server.on_read(ReadOutcome::Data(count));
        assert_eq!(step.commands, routine());
        assert_eq!(step.echo_count, count);
    }
}

#[test]
fn end_of_stream_returns_to_listening_on_same_port() {
    let mut server = ServerState::new();
    server.on_accept(true);
    server.on_read(ReadOutcome::Data(3));
    let step = server.on_read(ReadOutcome::EndOfStream);
    assert!(step.commands.is_empty());
    assert_eq!(step.echo_count, 0);
    assert_eq!(server.phase, ConnectionPhase::Listening);
    assert_eq!(server.port, 1234);
    // The same state object accepts the next client: nothing was torn down.
    let event = server.on_accept(true);
    assert_eq!(event, Some(display::Command::Status(17)));
}

#[test]
fn read_error_ends_the_session() {
    let mut server = ServerState::new();
    server.on_accept(true);
    let step = server.on_read(ReadOutcome::ReadError);
    assert!(step.commands.is_empty());
    assert_eq!(step.echo_count, 0);
    assert_eq!(server.phase, ConnectionPhase::Listening);
}

#[test]
fn write_error_ends_the_session() {
    let mut server = ServerState::new();
    server.on_accept(true);
    server.on_write_result(false);
    assert_eq!(server.phase, ConnectionPhase::Listening);
    let mut server = ServerState::new();
    server.on_accept(true);
    server.on_write_result(true);
    assert_eq!(server.phase, ConnectionPhase::ClientConnected);
}

#[test]
fn session_buffer_is_zeroed_and_full_size() {
    let buffer = tcp_server::session::session_buffer();
    assert_eq!(buffer.len(), 4096);
    assert!(buffer.iter().all(|byte| *byte == 0));
}

#[test]
fn echo_whole_buffer_in_one_write() {
    let data: Vec<u8> = (0..=255u8).cycle().take(4096).collect();
    let mut progress = EchoProgress::new(data.len());
    assert!(!progress.is_done());
    let chunk = progress.pending_chunk(&data);
    assert_eq!(chunk, data);
    progress.advance(chunk.len());
    assert!(progress.is_done());
}

#[test]
fn echo_split_across_short_writes_is_byte_exact() {
    let data: Vec<u8> = (0..97u8).cycle().take(1000).collect();
    let mut progress = EchoProgress::new(data.len());
    let mut received: Vec<u8> = Vec::new();
    // The transport accepts awkward amounts, including nothing at all once.
    let accepted = [1usize, 0, 13, 499, 250, 200, 37];
    for take in accepted {
        assert!(!progress.is_done());
        let chunk = progress.pending_chunk(&data);
        let taken = take.min(chunk.len());
        received.extend_from_slice(&chunk[..taken]);
        progress.advance(taken);
    }
    assert!(progress.is_done());
    assert_eq!(received, data);
}

#[test]
fn echo_of_single_byte() {
    let data = vec![42u8];
    let mut progress = EchoProgress::new(1);
    let chunk = progress.pending_chunk(&data);
    assert_eq!(chunk, vec![42u8]);
    progress.advance(1);
    assert!(progress.is_done());
    assert_eq!(progress.pending_chunk(&data), Vec::<u8>::new());
}
