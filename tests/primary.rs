use rcm_inject::primary::{PrimaryFailure, PrimaryOp, PrimaryOutcome, PrimaryRun, PrimaryStep};
use rcm_inject::session::{BufferSlot, RCMHax};
use rcm_inject::usb::UsbError;

fn run_with(blob_len: usize, trigger: Result<usize, UsbError>) -> (Vec<PrimaryOp>, PrimaryStep) {
    let session = RCMHax::new(false, None, false, true).unwrap();
    let (mut run, mut step) = PrimaryRun::start(session, blob_len);
    let mut ops = Vec::new();
    while let PrimaryStep::Op(op) = step {
        ops.push(op);
        let ev = match op {
            PrimaryOp::WriteChunk { start, end } => Ok(end - start),
            PrimaryOp::WriteZeros { length } => Ok(length),
            PrimaryOp::Trigger(_) => trigger,
        };
        step = run.on_event(ev);
    }
    (ops, step)
}

#[test]
fn trigger_timeout_is_success() {
    let (ops, end) = run_with(0x2000, Err(UsbError::Timeout));
    assert_eq!(end, PrimaryStep::Finished(PrimaryOutcome::Injected));
    assert_eq!(ops[0], PrimaryOp::WriteChunk { start: 0, end: 0x1000 });
    assert_eq!(ops[1], PrimaryOp::WriteChunk { start: 0x1000, end: 0x2000 });
    // two writes leave the low buffer current, so a dummy chunk follows.
    assert_eq!(ops[2], PrimaryOp::WriteZeros { length: 0x1000 });
    match ops[3] {
        PrimaryOp::Trigger(req) => assert_eq!(req.length, 0x7000),
        other => panic!("unexpected {:?}", other),
    }
}

#[test]
fn trigger_normal_completion_is_success() {
    let (_, end) = run_with(0x1000, Ok(0));
    assert_eq!(end, PrimaryStep::Finished(PrimaryOutcome::Injected));
}

#[test]
fn trigger_error_is_failure() {
    let (_, end) = run_with(0x1000, Err(UsbError::Io));
    assert_eq!(end, PrimaryStep::Finished(PrimaryOutcome::Failed(PrimaryFailure::Trigger(UsbError::Io))));
}

#[test]
fn odd_chunk_count_needs_no_dummy_write() {
    let (ops, _) = run_with(0x3000, Err(UsbError::Timeout));
    assert_eq!(ops.len(), 4);
    assert!(!ops.iter().any(|o| matches!(o, PrimaryOp::WriteZeros { .. })));
}

#[test]
fn upload_error_ends_the_run() {
    let session = RCMHax::new(false, None, false, true).unwrap();
    let (mut run, first) = PrimaryRun::start(session, 0x2000);
    assert_eq!(first, PrimaryStep::Op(PrimaryOp::WriteChunk { start: 0, end: 0x1000 }));
    let end = run.on_event(Err(UsbError::Timeout));
    assert_eq!(end, PrimaryStep::Finished(PrimaryOutcome::Failed(PrimaryFailure::Upload(UsbError::Timeout))));
    assert_eq!(run.session.current_buffer, BufferSlot::Low);
    assert_eq!(run.on_event(Ok(0)), end);
}

#[test]
fn upload_goes_in_whole_chunks_then_the_rest() {
    let (ops, _) = run_with(0x2801, Err(UsbError::Timeout));
    let writes: Vec<PrimaryOp> =
        ops.iter().copied().filter(|o| matches!(o, PrimaryOp::WriteChunk { .. })).collect();
    assert_eq!(
        writes,
        vec![
            PrimaryOp::WriteChunk { start: 0, end: 0x1000 },
            PrimaryOp::WriteChunk { start: 0x1000, end: 0x2000 },
            PrimaryOp::WriteChunk { start: 0x2000, end: 0x2801 },
        ]
    );
}

#[test]
fn empty_blob_goes_straight_to_the_buffer_switch() {
    let (ops, end) = run_with(0, Ok(0));
    assert_eq!(ops[0], PrimaryOp::WriteZeros { length: 0x1000 });
    assert_eq!(end, PrimaryStep::Finished(PrimaryOutcome::Injected));
}
