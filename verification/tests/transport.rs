use libreconnect::connection::{
    bind_address, bind_failed, frame_message, on_accept, reply_complete, AcceptEvent, AcceptStep,
    ACCEPT_RETRY_DELAY_MS, CONNECTION_TIMEOUT_SECS, READ_BUFFER_SIZE,
};
use libreconnect::{Connection, DaemonError, ReadEvent, Step, WriteEvent, MAX_MESSAGE_SIZE};

#[test]
fn frames_are_cut_at_newlines() {
    let mut connection = Connection::new("10.0.0.2:5000");
    assert!(connection.is_active());
    assert_eq!(connection.on_read(ReadEvent::Data(b"\"Pi".to_vec())), Step::Read);
    assert_eq!(
        connection.on_read(ReadEvent::Data(b"ng\"\n\"Pong\"\n\"Par".to_vec())),
        Step::Message(b"\"Ping\"".to_vec())
    );
    assert_eq!(connection.advance(), Step::Message(b"\"Pong\"".to_vec()));
    assert_eq!(connection.advance(), Step::Read);
    assert_eq!(connection.on_read(ReadEvent::Data(b"t\"\n".to_vec())), Step::Message(b"\"Part\"".to_vec()));
    assert_eq!(connection.advance(), Step::Read);
    assert!(connection.is_active());
}

#[test]
fn an_empty_line_is_an_empty_frame() {
    let mut connection = Connection::new("peer");
    assert_eq!(connection.on_read(ReadEvent::Data(b"\n\nx\n".to_vec())), Step::Message(Vec::new()));
    assert_eq!(connection.advance(), Step::Message(Vec::new()));
    assert_eq!(connection.advance(), Step::Message(b"x".to_vec()));
    assert_eq!(connection.advance(), Step::Read);
}

#[test]
fn end_of_stream_ends_the_connection_in_good_order() {
    let mut connection = Connection::new("peer");
    assert_eq!(connection.on_read(ReadEvent::Data(b"half".to_vec())), Step::Read);
    assert_eq!(connection.on_read(ReadEvent::Closed), Step::Finished);
    assert!(!connection.is_active());
    assert_eq!(connection.on_read(ReadEvent::Data(b"late\n".to_vec())), Step::Finished);
    assert_eq!(connection.advance(), Step::Finished);

    let mut other = Connection::new("peer");
    assert_eq!(other.on_read(ReadEvent::Data(Vec::new())), Step::Finished);
    assert!(!other.is_active());
}

#[test]
fn failed_and_overdue_reads_end_the_connection() {
    let mut connection = Connection::new("10.0.0.2:5000");
    assert_eq!(
        connection.on_read(ReadEvent::Failed("connection reset".to_string())),
        Step::Failed(DaemonError::NetworkError(
            "Read error from 10.0.0.2:5000: connection reset".to_string()
        ))
    );
    assert!(!connection.is_active());

    let mut connection = Connection::new("10.0.0.2:5000");
    assert_eq!(
        connection.on_read(ReadEvent::TimedOut),
        Step::Failed(DaemonError::Timeout("Read timeout from 10.0.0.2:5000".to_string()))
    );
    assert!(!connection.is_active());
    assert_eq!(connection.on_read(ReadEvent::TimedOut), Step::Finished);
}

#[test]
fn failed_and_overdue_writes_end_the_connection() {
    let mut connection = Connection::new("10.0.0.2:5000");
    assert_eq!(connection.on_write(WriteEvent::Done), Ok(()));
    assert!(connection.is_active());
    assert_eq!(
        connection.on_write(WriteEvent::Failed("broken pipe".to_string())),
        Err(DaemonError::NetworkError("Write error to 10.0.0.2:5000: broken pipe".to_string()))
    );
    assert!(!connection.is_active());

    let mut connection = Connection::new("10.0.0.2:5000");
    assert_eq!(
        connection.on_write(WriteEvent::TimedOut),
        Err(DaemonError::Timeout("Write timeout to 10.0.0.2:5000".to_string()))
    );
    assert!(!connection.is_active());
}

#[test]
fn undecodable_frames_end_the_connection() {
    let mut connection = Connection::new("10.0.0.2:5000");
    assert_eq!(
        connection.decode_failed("expected value at line 1 column 1"),
        DaemonError::MessageDeserialization(
            "Invalid message from 10.0.0.2:5000: expected value at line 1 column 1".to_string()
        )
    );
    assert!(!connection.is_active());
    assert_eq!(connection.on_read(ReadEvent::Data(b"\"Ping\"\n".to_vec())), Step::Finished);

    let mut connection = Connection::new("peer");
    assert_eq!(
        connection.encode_failed("key must be a string"),
        DaemonError::MessageSerialization("key must be a string".to_string())
    );
    assert!(!connection.is_active());
}

#[test]
fn a_message_of_the_largest_size_is_accepted() {
    let mut connection = Connection::new("peer");
    let mut frame = vec![b'a'; MAX_MESSAGE_SIZE];
    frame.push(b'\n');
    match connection.on_read(ReadEvent::Data(frame)) {
        Step::Message(message) => assert_eq!(message.len(), MAX_MESSAGE_SIZE),
        other => panic!("unexpected step {:?}", other),
    }
    assert!(connection.is_active());
}

#[test]
fn an_oversized_message_ends_the_connection() {
    let mut connection = Connection::new("peer");
    let mut frame = vec![b'a'; MAX_MESSAGE_SIZE + 1];
    frame.push(b'\n');
    frame.extend_from_slice(b"\"Ping\"\n");
    assert_eq!(
        connection.on_read(ReadEvent::Data(frame)),
        Step::Failed(DaemonError::MessageTooLarge(MAX_MESSAGE_SIZE + 1))
    );
    assert!(!connection.is_active());
    assert_eq!(connection.advance(), Step::Finished);
    assert_eq!(connection.on_read(ReadEvent::Data(b"\"Ping\"\n".to_vec())), Step::Finished);
}

#[test]
fn an_oversized_message_is_refused_before_it_is_complete() {
    let mut connection = Connection::new("peer");
    let piece = vec![b'a'; 1 << 20];
    for _ in 0..64 {
        assert_eq!(connection.on_read(ReadEvent::Data(piece.clone())), Step::Read);
    }
    assert_eq!(
        connection.on_read(ReadEvent::Data(b"b".to_vec())),
        Step::Failed(DaemonError::MessageTooLarge(MAX_MESSAGE_SIZE + 1))
    );
    assert!(!connection.is_active());
}

#[test]
fn responses_are_framed_with_a_newline() {
    assert_eq!(frame_message(b"\"Pong\"".to_vec()), b"\"Pong\"\n".to_vec());
    assert_eq!(frame_message(Vec::new()), b"\n".to_vec());
    assert!(reply_complete(&b"\"Pong\"\n".to_vec()));
    assert!(!reply_complete(&b"\"Pong\"".to_vec()));
    assert!(!reply_complete(&Vec::new()));
    assert!(reply_complete(&b"\n".to_vec()));
}

#[test]
fn listener_binds_every_interface() {
    assert_eq!(bind_address(1716), "0.0.0.0:1716");
    assert_eq!(bind_address(0), "0.0.0.0:0");
    assert_eq!(bind_address(65535), "0.0.0.0:65535");
    assert_eq!(
        bind_failed("0.0.0.0:1716", "Address already in use"),
        DaemonError::ServerStart("Failed to bind to 0.0.0.0:1716: Address already in use".to_string())
    );
}

#[test]
fn accepts_serve_or_retry() {
    match on_accept(AcceptEvent::Accepted("10.1.1.1:9".to_string())) {
        AcceptStep::Serve(mut connection) => {
            assert!(connection.is_active());
            assert_eq!(connection.advance(), Step::Read);
        }
        AcceptStep::RetryAfter(_) => panic!("an accepted peer is served"),
    }
    match on_accept(AcceptEvent::Failed("too many open files".to_string())) {
        AcceptStep::RetryAfter(delay) => assert_eq!(delay, 100),
        AcceptStep::Serve(_) => panic!("a failed accept serves nobody"),
    }
    assert_eq!(ACCEPT_RETRY_DELAY_MS, 100);
    assert_eq!(CONNECTION_TIMEOUT_SECS, 120);
    assert_eq!(READ_BUFFER_SIZE, 8192);
    assert_eq!(MAX_MESSAGE_SIZE, 64 * 1024 * 1024);
}
