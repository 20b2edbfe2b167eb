use echo_core::chunk::echo_chunk;
use echo_core::queue::ChunkQueue;
use echo_core::queue::RecvOutcome;
use echo_core::queue::SendOutcome;
use echo_core::queue::QUEUE_CAPACITY;
use echo_core::reader::on_read;
use echo_core::reader::on_send_outcome;
use echo_core::reader::ReadEvent;
use echo_core::reader::ReaderStep;
use echo_core::session::echo_session;
use echo_core::writer::after_write;
use echo_core::writer::on_recv;
use echo_core::writer::WriterStep;

#[test]
fn echo_ascii_is_exact() {
    assert_eq!(echo_chunk(b"ping"), b"ping".to_vec());
    assert_eq!(echo_chunk(b"hello, world"), b"hello, world".to_vec());
    assert_eq!(echo_chunk(b""), Vec::<u8>::new());
}

#[test]
fn echo_valid_utf8_is_exact() {
    let input = "gr\u{fc}\u{df}e \u{1f600}".as_bytes();
    assert_eq!(echo_chunk(input), input.to_vec());
}

#[test]
fn echo_invalid_utf8_substitutes_replacement() {
    assert_eq!(echo_chunk(&[0xff, b'a']), "\u{fffd}a".as_bytes().to_vec());
    assert_eq!(echo_chunk(&[0xf0, 0x9f]), "\u{fffd}".as_bytes().to_vec());
    let lone_continuation = [b'x', 0x80, b'y'];
    assert_eq!(
        echo_chunk(&lone_continuation),
        "x\u{fffd}y".as_bytes().to_vec()
    );
}

#[test]
fn reader_decodes_one_read_into_one_chunk() {
    let step = on_read(&ReadEvent::Data(b"abc".to_vec()));
    match step {
        ReaderStep::Forward(chunk) => assert_eq!(chunk, "abc"),
        _ => panic!("a non-empty read must be forwarded"),
    }
    let step = on_read(&ReadEvent::Data(vec![0xff]));
    match step {
        ReaderStep::Forward(chunk) => assert_eq!(chunk, "\u{fffd}"),
        _ => panic!("an invalid sequence is still forwarded, lossily decoded"),
    }
}

#[test]
fn reader_stops_on_close_and_error_only() {
    assert!(matches!(on_read(&ReadEvent::Closed), ReaderStep::Stop));
    assert!(matches!(on_read(&ReadEvent::Failed), ReaderStep::Stop));
    assert!(matches!(on_read(&ReadEvent::WouldBlock), ReaderStep::Poll));
    assert!(matches!(
        on_read(&ReadEvent::Data(b"x".to_vec())),
        ReaderStep::Forward(_)
    ));
}

#[test]
fn queue_is_fifo() {
    let mut q = ChunkQueue::new();
    assert!(matches!(q.send("A".to_string()), SendOutcome::Sent));
    assert!(matches!(q.send("B".to_string()), SendOutcome::Sent));
    match q.recv() {
        RecvOutcome::Chunk(c) => assert_eq!(c, "A"),
        _ => panic!("the first chunk in must come out first"),
    }
    match q.recv() {
        RecvOutcome::Chunk(c) => assert_eq!(c, "B"),
        _ => panic!("the second chunk must follow"),
    }
    assert!(matches!(q.recv(), RecvOutcome::Pending));
}

#[test]
fn full_queue_refuses_without_dropping() {
    let mut q = ChunkQueue::new();
    for n in 0..QUEUE_CAPACITY {
        assert!(matches!(q.send(format!("{}", n)), SendOutcome::Sent));
    }
    assert!(matches!(q.send("overflow".to_string()), SendOutcome::Full));
    assert!(matches!(q.send("overflow".to_string()), SendOutcome::Full));
    match q.recv() {
        RecvOutcome::Chunk(c) => assert_eq!(c, "0"),
        _ => panic!("a full queue must still hand out its front"),
    }
    assert!(matches!(q.send("fits now".to_string()), SendOutcome::Sent));
}

#[test]
fn reader_stalls_on_full_queue_and_survives_a_gone_consumer() {
    assert!(matches!(
        on_send_outcome(&SendOutcome::Full),
        ReaderStep::Retry
    ));
    assert!(matches!(
        on_send_outcome(&SendOutcome::Sent),
        ReaderStep::Poll
    ));
    assert!(matches!(
        on_send_outcome(&SendOutcome::Disconnected),
        ReaderStep::Poll
    ));
}

#[test]
fn reader_keeps_reading_after_consumer_is_gone() {
    let mut q = ChunkQueue::new();
    assert!(matches!(q.send("kept".to_string()), SendOutcome::Sent));
    q.drop_consumer();
    assert!(matches!(
        q.send("discarded".to_string()),
        SendOutcome::Disconnected
    ));
    assert!(matches!(
        on_send_outcome(&SendOutcome::Disconnected),
        ReaderStep::Poll
    ));
    assert!(matches!(
        on_read(&ReadEvent::Data(b"more".to_vec())),
        ReaderStep::Forward(_)
    ));
}

#[test]
fn writer_waits_on_a_closed_queue() {
    let mut q = ChunkQueue::new();
    assert!(matches!(q.send("last".to_string()), SendOutcome::Sent));
    q.drop_producer();
    match q.recv() {
        RecvOutcome::Chunk(c) => assert_eq!(c, "last"),
        _ => panic!("pending chunks outlive the producer"),
    }
    let closed = q.recv();
    assert!(matches!(closed, RecvOutcome::Closed));
    assert!(matches!(on_recv(closed), WriterStep::Pull));
    assert!(matches!(on_recv(RecvOutcome::Pending), WriterStep::Pull));
}

#[test]
fn writer_emits_chunk_bytes_untouched() {
    match on_recv(RecvOutcome::Chunk("ping".to_string())) {
        WriterStep::Emit(bytes) => assert_eq!(bytes, b"ping".to_vec()),
        _ => panic!("a chunk must be written out"),
    }
    match on_recv(RecvOutcome::Chunk("\u{fffd}ab".to_string())) {
        WriterStep::Emit(bytes) => assert_eq!(bytes, "\u{fffd}ab".as_bytes().to_vec()),
        _ => panic!("a chunk must be written out"),
    }
}

#[test]
fn writer_stops_only_on_its_own_write_error() {
    assert!(matches!(after_write(true), WriterStep::Pull));
    assert!(matches!(after_write(false), WriterStep::Stop));
}

#[test]
fn session_echoes_chunks_in_order() {
    let out = echo_session(vec![
        ReadEvent::Data(b"A".to_vec()),
        ReadEvent::WouldBlock,
        ReadEvent::Data(b"B".to_vec()),
    ]);
    assert_eq!(out, vec![b"A".to_vec(), b"B".to_vec()]);
}

#[test]
fn session_ping_then_close() {
    let out = echo_session(vec![
        ReadEvent::Data(b"ping".to_vec()),
        ReadEvent::Closed,
        ReadEvent::Data(b"after close, never read".to_vec()),
    ]);
    assert_eq!(out, vec![b"ping".to_vec()]);
}

#[test]
fn session_stops_on_read_error() {
    let out = echo_session(vec![
        ReadEvent::Data(b"one".to_vec()),
        ReadEvent::Failed,
        ReadEvent::Data(b"two".to_vec()),
    ]);
    assert_eq!(out, vec![b"one".to_vec()]);
}

#[test]
fn session_of_no_events_echoes_nothing() {
    let out = echo_session(vec![]);
    assert!(out.is_empty());
    let out = echo_session(vec![ReadEvent::WouldBlock, ReadEvent::Closed]);
    assert!(out.is_empty());
}
