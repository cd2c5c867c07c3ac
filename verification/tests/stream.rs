use bytes::Bytes;
use smux::channel::{Received, SendAttempt};
use smux::stream::{ReadStep, ShutdownStep, StreamCore, WritePlan, WriteStep};
use smux::{Command, Frame};

fn copied(step: ReadStep) -> Vec<u8> {
    match step {
        ReadStep::Copied(b) => b.to_vec(),
        _ => panic!("expected bytes"),
    }
}

fn planned(plan: WritePlan) -> (Frame, usize) {
    match plan {
        WritePlan::Send(f, n) => (f, n),
        _ => panic!("expected a frame to send"),
    }
}

/// Offers a write's frame the way the stream's task does, and reports.
fn write(stream: &StreamCore, tx: &flume::Sender<Frame>, buf: &[u8]) -> Option<WriteStep> {
    match stream.poll_write_step(false, buf) {
        WritePlan::Send(f, n) => {
            let sent = match tx.try_send(f) {
                Ok(()) => SendAttempt::Sent,
                Err(flume::TrySendError::Full(_)) => SendAttempt::Full,
                Err(flume::TrySendError::Disconnected(_)) => SendAttempt::Disconnected,
            };
            Some(StreamCore::write_result(sent, n))
        }
        _ => None,
    }
}

#[test]
fn stream_creation() {
    let (_data_tx, data_rx) = flume::unbounded::<Bytes>();
    let stream = StreamCore::new(123, data_rx, 32 * 1024);
    assert_eq!(stream.stream_id(), 123);
    assert!(!stream.is_read_closed());
    assert!(!stream.is_write_closed());
    assert!(!stream.is_closed());
}

#[test]
fn stream_read_with_data_and_partial_reads() {
    let (data_tx, data_rx) = flume::unbounded::<Bytes>();
    let mut stream = StreamCore::new(123, data_rx, 32 * 1024);

    assert!(matches!(stream.poll_read_step(false, 20), ReadStep::Pending));
    data_tx.send(Bytes::from("hello ")).unwrap();
    data_tx.send(Bytes::from("world")).unwrap();
    assert_eq!(copied(stream.poll_read_step(false, 4)), b"hell");
    assert_eq!(copied(stream.poll_read_step(false, 20)), b"o ");
    assert_eq!(copied(stream.poll_read_step(false, 20)), b"world");
    drop(data_tx);
    assert!(stream.is_read_closed());
    assert!(matches!(stream.poll_read_step(false, 20), ReadStep::Eof));
    assert!(matches!(stream.poll_read_step(false, 20), ReadStep::Eof));
}

#[test]
fn stream_read_with_no_room_loses_nothing() {
    let (data_tx, data_rx) = flume::unbounded::<Bytes>();
    let mut stream = StreamCore::new(1, data_rx, 32 * 1024);
    data_tx.send(Bytes::from("abc")).unwrap();
    data_tx.send(Bytes::from("def")).unwrap();
    assert_eq!(copied(stream.poll_read_step(false, 1)), b"a");
    // No room: nothing is handed out and nothing more is received.
    assert_eq!(copied(stream.poll_read_step(false, 0)), b"");
    assert_eq!(copied(stream.poll_read_step(false, 0)), b"");
    assert_eq!(copied(stream.poll_read_step(false, 10)), b"bc");
    assert_eq!(copied(stream.poll_read_step(false, 10)), b"def");
}

#[test]
fn stream_read_on_closed_session() {
    let (data_tx, data_rx) = flume::unbounded::<Bytes>();
    let mut stream = StreamCore::new(1, data_rx, 32 * 1024);
    data_tx.send(Bytes::from("x")).unwrap();
    assert!(matches!(stream.poll_read_step(true, 20), ReadStep::SessionClosed));
    assert_eq!(copied(stream.poll_read_step(false, 20)), b"x");
}

#[test]
fn stream_absorb() {
    let (_data_tx, data_rx) = flume::unbounded::<Bytes>();
    let mut stream = StreamCore::new(1, data_rx, 32 * 1024);
    assert_eq!(copied(stream.absorb(Received::Chunk(Bytes::from("abc")), 0)), b"");
    assert_eq!(copied(stream.poll_read_step(false, 2)), b"ab");
    assert_eq!(copied(stream.poll_read_step(false, 2)), b"c");
    assert!(matches!(stream.absorb(Received::Empty, 5), ReadStep::Pending));
    assert!(matches!(stream.absorb(Received::Disconnected, 5), ReadStep::Eof));
    assert!(stream.is_read_closed());
    assert!(matches!(stream.absorb(Received::Empty, 5), ReadStep::Eof));
}

#[test]
fn stream_peer_close_marks_read_closed() {
    // The session drops the stream's sender on the peer's closing frame.
    let mut session = smux::session::SessionCore::new(false, 1);
    let rx = match session.handle_frame(Frame::new_syn(1, 3)) {
        Ok(smux::session::FrameEffect::Accept(_, rx)) => rx,
        _ => panic!("expected a stream to accept"),
    };
    let mut stream = StreamCore::new(3, rx, 32 * 1024);
    assert_eq!(session.deliver(3, Bytes::from("last")), smux::session::DeliverOutcome::Delivered);
    assert!(!stream.is_read_closed());
    assert!(session.on_fin(3));
    assert!(stream.is_read_closed());
    // The data queued before the close is still read, then the end.
    assert_eq!(copied(stream.poll_read_step(false, 10)), b"last");
    assert!(matches!(stream.poll_read_step(false, 10), ReadStep::Eof));
}

#[test]
fn stream_write_plans_one_data_frame() {
    let (frame_tx, frame_rx) = flume::bounded::<Frame>(1);
    let (_data_tx, data_rx) = flume::unbounded::<Bytes>();
    let stream = StreamCore::new(123, data_rx, 32 * 1024);

    assert_eq!(write(&stream, &frame_tx, b"hello world"), Some(WriteStep::Written(11)));
    let frame = frame_rx.try_recv().unwrap();
    assert_eq!(frame.cmd, Command::Psh);
    assert_eq!(frame.stream_id, 123);
    assert_eq!(frame.version, 1);
    assert_eq!(frame.data.as_ref(), b"hello world");

    assert_eq!(write(&stream, &frame_tx, b"a"), Some(WriteStep::Written(1)));
    assert_eq!(write(&stream, &frame_tx, b"b"), Some(WriteStep::Pending));
    assert!(matches!(stream.poll_write_step(false, b""), WritePlan::Empty));
    assert!(matches!(stream.poll_write_step(true, b"c"), WritePlan::SessionClosed));
    drop(frame_rx);
    assert_eq!(write(&stream, &frame_tx, b"d"), Some(WriteStep::SessionClosed));
}

#[test]
fn stream_write_is_cut_to_the_frame_size() {
    let (_data_tx, data_rx) = flume::unbounded::<Bytes>();
    let stream = StreamCore::new(9, data_rx, 12);
    let (f, n) = planned(stream.poll_write_step(false, b"0123456789"));
    assert_eq!(n, 4);
    assert_eq!(f.data.as_ref(), b"0123");
    let (f, n) = stream.psh_frame_for(b"ab");
    assert_eq!(n, 2);
    assert_eq!(f.data.as_ref(), b"ab");
}

#[test]
fn stream_shutdown_and_close() {
    let (_data_tx, data_rx) = flume::unbounded::<Bytes>();
    let mut stream = StreamCore::new(123, data_rx, 32 * 1024);

    let fin = stream.poll_shutdown_step().unwrap();
    assert_eq!(fin.cmd, Command::Fin);
    assert_eq!(fin.stream_id, 123);
    assert_eq!(stream.shutdown_result(SendAttempt::Sent), ShutdownStep::Done);
    assert!(stream.is_write_closed());
    assert!(stream.poll_shutdown_step().is_none());
    assert!(stream.begin_close().is_none());
    assert!(matches!(stream.poll_write_step(false, b"x"), WritePlan::WriteClosed));
}

#[test]
fn stream_close_gives_one_fin() {
    let (_data_tx, data_rx) = flume::unbounded::<Bytes>();
    let mut stream = StreamCore::new(5, data_rx, 32 * 1024);
    let fin = stream.begin_close().unwrap();
    assert_eq!(fin.cmd, Command::Fin);
    assert_eq!(fin.stream_id, 5);
    assert!(stream.is_write_closed());
    assert!(stream.begin_close().is_none());
}

#[test]
fn stream_shutdown_waits_on_a_full_channel() {
    let (_data_tx, data_rx) = flume::unbounded::<Bytes>();
    let mut stream = StreamCore::new(5, data_rx, 32 * 1024);
    assert!(stream.poll_shutdown_step().is_some());
    assert_eq!(stream.shutdown_result(SendAttempt::Full), ShutdownStep::Pending);
    assert!(!stream.is_write_closed());
    assert_eq!(stream.shutdown_result(SendAttempt::Disconnected), ShutdownStep::Done);
    assert!(stream.is_write_closed());
}

#[test]
fn stream_written_frames_pass_validation_and_decode() {
    let (_data_tx, data_rx) = flume::unbounded::<Bytes>();
    let stream = StreamCore::new(7, data_rx, 12);
    let (frame, n) = planned(stream.poll_write_step(false, b"abcdefgh"));
    assert_eq!(n, 4);
    let config = smux::Config { max_frame_size: 12, ..Default::default() };
    assert!(frame.validate(&config).is_ok());
    let mut codec = smux::Codec::new(config);
    let mut buf = bytes::BytesMut::new();
    codec.encode(frame.clone(), &mut buf).unwrap();
    assert_eq!(codec.decode(&mut buf).unwrap().unwrap(), frame);
}

#[test]
fn stream_reads_hand_out_every_byte_in_order() {
    let (data_tx, data_rx) = flume::unbounded::<Bytes>();
    let mut stream = StreamCore::new(1, data_rx, 32 * 1024);
    let chunks: Vec<&[u8]> = vec![b"one", b"two-two", b"3", b"four!", b"fifth chunk"];
    let mut sent = Vec::new();
    for c in &chunks {
        data_tx.send(Bytes::copy_from_slice(c)).unwrap();
        sent.extend_from_slice(c);
    }
    drop(data_tx);
    let rooms = [2usize, 0, 5, 1, 3, 0, 7, 4, 4, 100];
    let mut got = Vec::new();
    let mut i = 0;
    loop {
        let room = rooms[i % rooms.len()];
        i += 1;
        match stream.poll_read_step(false, room) {
            ReadStep::Copied(b) => {
                assert!(b.len() <= room);
                got.extend_from_slice(&b);
                assert_eq!(&sent[..got.len()], &got[..]);
            }
            ReadStep::Eof => break,
            _ => panic!("unexpected read outcome"),
        }
    }
    assert_eq!(got, sent);
}
