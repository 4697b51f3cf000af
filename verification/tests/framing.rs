use nitro_cvv::frame_io::{
    remaining_budget, Budget, FrameReader, FrameWriter, IoAbort, ReadEvent, ReadStep, WriteEvent,
    WriteStep,
};
use nitro_cvv::io_result::IoResult;
use nitro_cvv::transport::{
    frame_length_admissible, message_write_result, MessageReader, MessageStep, MAX_MESSAGE_SIZE,
};
use nitro_cvv::GetKeyRequest;

#[test]
fn budget_recomputation() {
    assert_eq!(remaining_budget(Some(100), 30), Budget::Wait(Some(70)));
    assert_eq!(remaining_budget(Some(100), 100), Budget::Expired);
    assert_eq!(remaining_budget(Some(100), 150), Budget::Expired);
    assert_eq!(remaining_budget(None, 12345), Budget::Wait(None));
}

#[test]
fn reader_accumulates_chunks() {
    let mut r = FrameReader::new(4);
    assert_eq!(r.remaining(), 4);
    assert_eq!(r.step(ReadEvent::Data(vec![1, 2])), ReadStep::Continue);
    assert_eq!(r.remaining(), 2);
    assert_eq!(
        r.step(ReadEvent::Data(vec![3, 4])),
        ReadStep::Finish(IoResult::Success(4))
    );
    assert!(r.complete());
    assert_eq!(r.into_data(), vec![1, 2, 3, 4]);
}

#[test]
fn reader_eof_discards_partial_data() {
    let mut r = FrameReader::new(4);
    r.step(ReadEvent::Data(vec![1, 2]));
    assert_eq!(r.step(ReadEvent::Eof), ReadStep::Finish(IoResult::Closed));
}

#[test]
fn reader_timeout() {
    let mut r = FrameReader::new(4);
    assert_eq!(
        r.step(ReadEvent::TimerExpired),
        ReadStep::Finish(IoResult::Timeout)
    );
}

#[test]
fn reader_cancellation_is_a_hard_failure() {
    // cancellation must unwind through the hard-failure path, not Timeout
    let mut r = FrameReader::new(4);
    r.step(ReadEvent::Data(vec![9]));
    let step = r.step(ReadEvent::Cancelled);
    assert_eq!(step, ReadStep::Abort(IoAbort::Cancelled));
    assert_ne!(step, ReadStep::Finish(IoResult::Timeout));
}

#[test]
fn reader_stream_error_is_a_hard_failure() {
    let mut r = FrameReader::new(4);
    assert_eq!(
        r.step(ReadEvent::StreamError),
        ReadStep::Abort(IoAbort::StreamError)
    );
}

#[test]
fn writer_tracks_progress_and_flushes() {
    let mut w = FrameWriter::new(vec![10, 20, 30, 40, 50]);
    assert_eq!(w.remaining(), 5);
    assert_eq!(w.unsent(), &[10, 20, 30, 40, 50]);
    assert_eq!(w.step(WriteEvent::Wrote(2)), WriteStep::Continue);
    assert_eq!(w.unsent(), &[30, 40, 50]);
    assert_eq!(w.step(WriteEvent::Wrote(3)), WriteStep::NeedsFlush);
    assert_eq!(
        w.step(WriteEvent::Flushed),
        WriteStep::Finish(IoResult::Success(5))
    );
}

#[test]
fn empty_write_succeeds_after_the_flush() {
    // a zero-length write skips the write loop entirely and completes
    // as a zero-byte success once the stream is flushed
    let mut w = FrameWriter::new(Vec::new());
    assert_eq!(w.remaining(), 0);
    assert_eq!(
        w.step(WriteEvent::Flushed),
        WriteStep::Finish(IoResult::Success(0))
    );
}

#[test]
fn writer_soft_and_hard_endings() {
    let mut w = FrameWriter::new(vec![1, 2, 3]);
    assert_eq!(
        w.step(WriteEvent::Eof),
        WriteStep::Finish(IoResult::Closed)
    );
    assert_eq!(
        w.step(WriteEvent::TimerExpired),
        WriteStep::Finish(IoResult::Timeout)
    );
    assert_eq!(
        w.step(WriteEvent::Cancelled),
        WriteStep::Abort(IoAbort::Cancelled)
    );
    let mut w2 = FrameWriter::new(vec![1]);
    assert_eq!(w2.step(WriteEvent::Wrote(1)), WriteStep::NeedsFlush);
    // the deadline can still elapse between the last write and the flush
    assert_eq!(
        w2.step(WriteEvent::TimerExpired),
        WriteStep::Finish(IoResult::Timeout)
    );
}

#[test]
fn size_guard_rejects_over_ceiling_lengths() {
    assert!(!frame_length_admissible(10 * 1024 * 1024 + 1));
    assert!(frame_length_admissible(10 * 1024 * 1024));
    assert!(frame_length_admissible(0));
    assert_eq!(MAX_MESSAGE_SIZE, 10 * 1024 * 1024);
}

#[test]
fn partial_prefix_delivery_still_yields_the_frame() {
    // the 2-byte length prefix arrives as two separate 1-byte deliveries
    let req = GetKeyRequest::new(*b"0000", b"key".to_vec());
    let frame = req.to_bytes();
    assert_eq!(frame.len(), 11);
    let mut m = MessageReader::new();
    assert_eq!(m.needed(), 2);
    assert_eq!(
        m.step(ReadEvent::Data(vec![frame[0]])),
        MessageStep::NeedBytes(1)
    );
    assert_eq!(
        m.step(ReadEvent::Data(vec![frame[1]])),
        MessageStep::NeedBytes(9)
    );
    // body in uneven pieces
    assert_eq!(
        m.step(ReadEvent::Data(frame[2..6].to_vec())),
        MessageStep::NeedBytes(5)
    );
    let done = m.step(ReadEvent::Data(frame[6..].to_vec()));
    assert_eq!(done, MessageStep::Frame(frame));
}

#[test]
fn zero_length_body_yields_prefix_only_frame() {
    let mut m = MessageReader::new();
    assert_eq!(
        m.step(ReadEvent::Data(vec![0, 0])),
        MessageStep::Frame(vec![0, 0])
    );
}

#[test]
fn transport_collapses_closed_and_timeout_to_empty() {
    let mut m = MessageReader::new();
    assert_eq!(m.step(ReadEvent::Eof), MessageStep::Empty);
    let mut m2 = MessageReader::new();
    m2.step(ReadEvent::Data(vec![0]));
    assert_eq!(m2.step(ReadEvent::TimerExpired), MessageStep::Empty);
}

#[test]
fn transport_cancellation_stays_hard() {
    let mut m = MessageReader::new();
    m.step(ReadEvent::Data(vec![0]));
    assert_eq!(
        m.step(ReadEvent::Cancelled),
        MessageStep::Abort(IoAbort::Cancelled)
    );
}

#[test]
fn largest_declarable_length_is_requested() {
    let mut m = MessageReader::new();
    assert_eq!(
        m.step(ReadEvent::Data(vec![255, 255])),
        MessageStep::NeedBytes(65535)
    );
}

#[test]
fn largest_frame_roundtrips_through_the_transport() {
    // the largest payload a header can declare: 65529 key-id bytes
    let key_id = vec![0x5a; 65529];
    let req = GetKeyRequest::new(*b"0000", key_id);
    let frame = req.to_bytes();
    assert_eq!(frame.len(), 2 + 65535);
    let mut m = MessageReader::new();
    let mut offset = 0usize;
    let mut result = None;
    while offset < frame.len() {
        let end = (offset + 8192).min(frame.len()).min(offset + m.needed());
        match m.step(ReadEvent::Data(frame[offset..end].to_vec())) {
            MessageStep::NeedBytes(_) => {}
            MessageStep::Frame(v) => result = Some(v),
            other => panic!("unexpected step {:?}", other),
        }
        offset = end;
    }
    assert_eq!(result.unwrap(), frame);
}

#[test]
fn write_result_mapping() {
    assert_eq!(message_write_result(&IoResult::Success(42)), 42);
    assert_eq!(message_write_result(&IoResult::Closed), 0);
    assert_eq!(message_write_result(&IoResult::Timeout), 0);
}

#[test]
fn io_result_accessors() {
    assert!(IoResult::Success(7).is_success());
    assert!(!IoResult::Success(7).is_closed());
    assert_eq!(IoResult::Success(7).bytes(), Some(7));
    assert!(IoResult::Closed.is_closed());
    assert_eq!(IoResult::Closed.bytes(), None);
    assert!(IoResult::Timeout.is_timeout());
    assert_eq!(IoResult::Timeout.bytes(), None);
}
