use hotkey_transfer::frame::{encode_frame, DecodeError, FrameField};
use hotkey_transfer::outcome::{IoStage, TransferOutcome};
use hotkey_transfer::receive::{ReceiveAction, ReceiveEvent, ReceiveSession};
use hotkey_transfer::send::{SendAction, SendEvent, SendSession, RESPONSE_LIMIT};
use std::path::PathBuf;

fn filled(len: usize) -> Vec<u8> {
    (0..len).map(|i| (i * 7 % 253) as u8).collect()
}

/// Runs a receiving session over a connection that delivers `stream` and
/// then closes, up to the first action that is not a read. Returns that
/// action, the session, and the number of bytes that were asked for.
fn feed(destination: Option<PathBuf>, stream: &[u8]) -> (ReceiveSession, ReceiveAction, usize) {
    let (mut session, mut action) = ReceiveSession::begin(destination);
    let mut asked = 0usize;
    loop {
        let count = match action {
            ReceiveAction::Read(count) => count,
            other => return (session, other, asked),
        };
        let event = if asked + count <= stream.len() {
            ReceiveEvent::Bytes(stream[asked..asked + count].to_vec())
        } else {
            ReceiveEvent::ReadFailed
        };
        asked += count;
        let next = session.step(event);
        session = next.0;
        action = next.1;
    }
}

/// Sends `contents` as `name` to a receiver with the destination `dir` and
/// returns what the receiver stored and what the sender reported.
fn transfer(name: &str, contents: &[u8], dir: &str) -> (ReceiveAction, SendAction) {
    let (sender, first) = SendSession::begin();
    assert_eq!(first, SendAction::Connect);
    let (sender, second) = sender.step(SendEvent::Connected);
    assert_eq!(second, SendAction::ReadFile);
    let (sender, third) =
        sender.step(SendEvent::File { name: name.to_string(), contents: contents.to_vec() });
    let frame = match third {
        SendAction::Write(frame) => frame,
        other => panic!("expected a write, got {:?}", other),
    };
    let (receiver, store, asked) = feed(Some(PathBuf::from(dir)), &frame);
    assert_eq!(asked, frame.len());
    let (receiver, reply) = receiver.step(ReceiveEvent::Stored);
    assert_eq!(receiver, ReceiveSession::Finished { outcome: TransferOutcome::Success });
    let answer = match reply {
        ReceiveAction::Reply { message, outcome } => {
            assert_eq!(outcome, TransferOutcome::Success);
            message
        }
        other => panic!("expected a reply, got {:?}", other),
    };
    let (sender, fourth) = sender.step(SendEvent::Written);
    assert_eq!(fourth, SendAction::ReadResponse(1024));
    let (sender, report) = sender.step(SendEvent::Response(answer));
    assert_eq!(sender, SendSession::Finished { outcome: TransferOutcome::Success });
    (store, report)
}

#[test]
fn receive_without_destination_answers_and_reads_nothing() {
    let (session, action) = ReceiveSession::begin(None);
    assert_eq!(
        session,
        ReceiveSession::Finished { outcome: TransferOutcome::NoDestinationConfigured }
    );
    assert_eq!(
        action,
        ReceiveAction::Reply {
            message: b"ERROR: No save directory selected".to_vec(),
            outcome: TransferOutcome::NoDestinationConfigured,
        }
    );
}

#[test]
fn receive_without_destination_asks_for_no_byte() {
    let frame = encode_frame("a", &[1, 2, 3]);
    let (_, action, asked) = feed(None, &frame);
    assert_eq!(asked, 0);
    assert!(matches!(
        action,
        ReceiveAction::Reply { outcome: TransferOutcome::NoDestinationConfigured, .. }
    ));
}

#[test]
fn receive_without_destination_stays_over() {
    let (session, _) = ReceiveSession::begin(None);
    let (session, action) = session.step(ReceiveEvent::Bytes(vec![0, 0, 0, 1]));
    assert_eq!(
        action,
        ReceiveAction::Close { outcome: TransferOutcome::NoDestinationConfigured }
    );
    let (_, action) = session.step(ReceiveEvent::Stored);
    assert_eq!(
        action,
        ReceiveAction::Close { outcome: TransferOutcome::NoDestinationConfigured }
    );
}

#[test]
fn receive_reads_the_four_fields_in_order() {
    let dir = PathBuf::from("/tmp/inbox");
    let (session, action) = ReceiveSession::begin(Some(dir.clone()));
    assert_eq!(action, ReceiveAction::Read(4));
    let (session, action) = session.step(ReceiveEvent::Bytes(vec![0, 0, 0, 5]));
    assert_eq!(
        session,
        ReceiveSession::AwaitPayloadLength { directory: dir.clone(), name_length: 5 }
    );
    assert_eq!(action, ReceiveAction::Read(4));
    let (session, action) = session.step(ReceiveEvent::Bytes(vec![0, 0, 1, 0]));
    assert_eq!(action, ReceiveAction::Read(5));
    let (session, action) = session.step(ReceiveEvent::Bytes(b"a.txt".to_vec()));
    assert_eq!(
        session,
        ReceiveSession::AwaitPayload {
            directory: dir.clone(),
            name: "a.txt".to_string(),
            payload_length: 256
        }
    );
    assert_eq!(action, ReceiveAction::Read(256));
    let payload = filled(256);
    let (session, action) = session.step(ReceiveEvent::Bytes(payload.clone()));
    assert_eq!(session, ReceiveSession::AwaitStore);
    assert_eq!(
        action,
        ReceiveAction::Store { directory: dir, name: "a.txt".to_string(), payload }
    );
}

#[test]
fn receive_of_a_valid_frame_stores_and_answers_ok() {
    let payload = filled(1000);
    let frame = encode_frame("photo.jpg", &payload);
    let (session, action, asked) = feed(Some(PathBuf::from("inbox")), &frame);
    assert_eq!(asked, frame.len());
    assert_eq!(
        action,
        ReceiveAction::Store {
            directory: PathBuf::from("inbox"),
            name: "photo.jpg".to_string(),
            payload
        }
    );
    let (session, action) = session.step(ReceiveEvent::Stored);
    assert_eq!(
        action,
        ReceiveAction::Reply { message: b"OK".to_vec(), outcome: TransferOutcome::Success }
    );
    assert_eq!(session, ReceiveSession::Finished { outcome: TransferOutcome::Success });
}

#[test]
fn receive_does_not_read_past_the_frame() {
    let mut stream = encode_frame("n", &[5, 6, 7]);
    let frame_length = stream.len();
    stream.extend_from_slice(&[1; 50]);
    let (_, action, asked) = feed(Some(PathBuf::from("d")), &stream);
    assert_eq!(asked, frame_length);
    assert!(matches!(action, ReceiveAction::Store { .. }));
}

#[test]
fn receive_store_failure_is_an_io_error_without_answer() {
    let frame = encode_frame("n", &[1]);
    let (session, _, _) = feed(Some(PathBuf::from("d")), &frame);
    let (session, action) = session.step(ReceiveEvent::StoreFailed);
    assert_eq!(
        action,
        ReceiveAction::Close { outcome: TransferOutcome::IoError(IoStage::WriteFile) }
    );
    assert_eq!(
        session,
        ReceiveSession::Finished { outcome: TransferOutcome::IoError(IoStage::WriteFile) }
    );
}

#[test]
fn receive_of_a_cut_stream_is_a_protocol_error_at_each_field() {
    let frame = encode_frame("name", &[1, 2, 3, 4, 5]);
    let expect = |cut: usize, field: FrameField| {
        let (session, action, _) = feed(Some(PathBuf::from("d")), &frame[..cut]);
        let outcome = TransferOutcome::ProtocolError(DecodeError::Truncated(field));
        assert_eq!(action, ReceiveAction::Close { outcome });
        assert_eq!(session, ReceiveSession::Finished { outcome });
    };
    expect(0, FrameField::NameLength);
    expect(3, FrameField::NameLength);
    expect(4, FrameField::PayloadLength);
    expect(7, FrameField::PayloadLength);
    expect(8, FrameField::Name);
    expect(11, FrameField::Name);
    expect(12, FrameField::Payload);
    expect(16, FrameField::Payload);
}

#[test]
fn receive_of_an_invalid_name_ends_before_the_payload() {
    let stream = [0, 0, 0, 2, 0, 0, 0, 3, 0xC3, 0x28, 1, 2, 3];
    let (_, action, asked) = feed(Some(PathBuf::from("d")), &stream);
    assert_eq!(asked, 10);
    assert_eq!(
        action,
        ReceiveAction::Close {
            outcome: TransferOutcome::ProtocolError(DecodeError::InvalidName)
        }
    );
}

#[test]
fn receive_takes_a_read_of_the_wrong_length_for_a_short_one() {
    let (session, _) = ReceiveSession::begin(Some(PathBuf::from("d")));
    let (_, action) = session.step(ReceiveEvent::Bytes(vec![0, 0, 0, 1, 9]));
    assert_eq!(
        action,
        ReceiveAction::Close {
            outcome: TransferOutcome::ProtocolError(DecodeError::Truncated(
                FrameField::NameLength
            ))
        }
    );
}

#[test]
fn receive_of_an_empty_name_and_payload() {
    let frame = encode_frame("", &[]);
    let (_, action, _) = feed(Some(PathBuf::from("d")), &frame);
    assert_eq!(
        action,
        ReceiveAction::Store {
            directory: PathBuf::from("d"),
            name: String::new(),
            payload: Vec::new()
        }
    );
}

#[test]
fn send_walks_through_connect_read_write_and_answer() {
    let (session, action) = SendSession::begin();
    assert_eq!(session, SendSession::AwaitConnect);
    assert_eq!(action, SendAction::Connect);
    let (session, action) = session.step(SendEvent::Connected);
    assert_eq!(session, SendSession::AwaitFile);
    assert_eq!(action, SendAction::ReadFile);
    let (session, action) =
        session.step(SendEvent::File { name: "x".to_string(), contents: vec![7, 8] });
    assert_eq!(session, SendSession::AwaitWrite);
    assert_eq!(action, SendAction::Write(vec![0, 0, 0, 1, 0, 0, 0, 2, b'x', 7, 8]));
    let (session, action) = session.step(SendEvent::Written);
    assert_eq!(session, SendSession::AwaitResponse);
    assert_eq!(action, SendAction::ReadResponse(RESPONSE_LIMIT));
    let (session, action) = session.step(SendEvent::Response(b"OK".to_vec()));
    assert_eq!(session, SendSession::Finished { outcome: TransferOutcome::Success });
    assert_eq!(
        action,
        SendAction::Report { outcome: TransferOutcome::Success, response: b"OK".to_vec() }
    );
}

#[test]
fn send_succeeds_whatever_the_answer_says() {
    for answer in [&b"ERROR: No save directory selected"[..], &b""[..], &[0xFF, 0x00][..]] {
        let (session, _) = SendSession::AwaitResponse.step(SendEvent::Response(answer.to_vec()));
        assert_eq!(session, SendSession::Finished { outcome: TransferOutcome::Success });
    }
}

#[test]
fn send_keeps_at_most_the_response_limit() {
    assert_eq!(RESPONSE_LIMIT, 1024);
    let long = filled(1500);
    let (_, action) = SendSession::AwaitResponse.step(SendEvent::Response(long.clone()));
    assert_eq!(
        action,
        SendAction::Report { outcome: TransferOutcome::Success, response: long[..1024].to_vec() }
    );
    let exact = filled(1024);
    let (_, action) = SendSession::AwaitResponse.step(SendEvent::Response(exact.clone()));
    assert_eq!(
        action,
        SendAction::Report { outcome: TransferOutcome::Success, response: exact }
    );
}

#[test]
fn send_failures_name_the_step_that_failed() {
    let failed = |session: SendSession, event: SendEvent, stage: IoStage| {
        let (next, action) = session.step(event);
        let outcome = TransferOutcome::IoError(stage);
        assert_eq!(next, SendSession::Finished { outcome });
        assert_eq!(action, SendAction::Report { outcome, response: Vec::new() });
    };
    failed(SendSession::AwaitConnect, SendEvent::ConnectFailed, IoStage::Connect);
    failed(SendSession::AwaitFile, SendEvent::FileFailed, IoStage::ReadFile);
    failed(SendSession::AwaitWrite, SendEvent::WriteFailed, IoStage::WriteFrame);
    failed(SendSession::AwaitResponse, SendEvent::ResponseFailed, IoStage::ReadResponse);
}

#[test]
fn send_takes_an_unexpected_event_for_a_failure_of_the_step() {
    let (next, _) = SendSession::AwaitConnect.step(SendEvent::Written);
    assert_eq!(next, SendSession::Finished { outcome: TransferOutcome::IoError(IoStage::Connect) });
}

#[test]
fn send_that_is_over_stays_over() {
    let over = SendSession::Finished { outcome: TransferOutcome::IoError(IoStage::Connect) };
    let (next, action) = over.step(SendEvent::Connected);
    assert_eq!(next, over);
    assert_eq!(
        action,
        SendAction::Report {
            outcome: TransferOutcome::IoError(IoStage::Connect),
            response: Vec::new()
        }
    );
}

#[test]
fn sent_file_of_size_zero_arrives_unchanged() {
    let (store, report) = transfer("zero.bin", &[], "inbox");
    assert_eq!(
        store,
        ReceiveAction::Store {
            directory: PathBuf::from("inbox"),
            name: "zero.bin".to_string(),
            payload: Vec::new()
        }
    );
    assert_eq!(
        report,
        SendAction::Report { outcome: TransferOutcome::Success, response: b"OK".to_vec() }
    );
}

#[test]
fn sent_file_of_size_one_arrives_unchanged() {
    let (store, _) = transfer("one.bin", &[0xAB], "inbox");
    assert_eq!(
        store,
        ReceiveAction::Store {
            directory: PathBuf::from("inbox"),
            name: "one.bin".to_string(),
            payload: vec![0xAB]
        }
    );
}

#[test]
fn sent_file_above_64k_arrives_unchanged() {
    let contents = filled(64 * 1024 + 17);
    let (store, _) = transfer("large.bin", &contents, "inbox");
    assert_eq!(
        store,
        ReceiveAction::Store {
            directory: PathBuf::from("inbox"),
            name: "large.bin".to_string(),
            payload: contents
        }
    );
}
