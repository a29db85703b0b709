use rcm_inject::escalation::{
    Attempt, Escalation, EscalationStep, Strategy, StrategyFailure, UsbOp, Verdict,
};
use rcm_inject::usb::UsbError;

const EP: u8 = 0x01;

/// Drives an escalation, answering each operation with `answer`; returns the
/// terminal step and the operations issued, per strategy.
fn drive(
    len: usize,
    mut answer: impl FnMut(&UsbOp, usize) -> Result<usize, UsbError>,
) -> (EscalationStep, Vec<(Strategy, UsbOp)>) {
    let (mut e, mut step) = Escalation::start(len, EP);
    let mut ops = Vec::new();
    for _ in 0..10_000 {
        match step {
            EscalationStep::Op(op) => {
                let s = strategy_of(&e);
                ops.push((s, op));
                let ev = answer(&op, ops.len());
                step = e.on_event(ev);
            }
            done => return (done, ops),
        }
    }
    panic!("escalation did not end");
}

fn strategy_of(e: &Escalation) -> Strategy {
    match e.attempt {
        Attempt::Classic(_) => Strategy::ClassicBulkInterrupt,
        Attempt::Primed(_) => Strategy::PrimedDevice,
        Attempt::Aggressive(_) => Strategy::AggressiveTiming,
        Attempt::Reset(_) => Strategy::DeviceReset,
    }
}

#[test]
fn classic_success_stops_the_escalation() {
    // first write times out, overflow read answers, probe fails: exploited.
    let (end, ops) = drive(0x4000, |op, n| match (n, op) {
        (1, UsbOp::BulkWrite { .. }) => Err(UsbError::Timeout),
        (2, UsbOp::Control { .. }) => Ok(0),
        (3, UsbOp::BulkWrite { .. }) => Err(UsbError::Pipe),
        _ => panic!("unexpected operation"),
    });
    assert_eq!(end, EscalationStep::Exploited(Strategy::ClassicBulkInterrupt));
    assert_eq!(ops.len(), 3);
    assert!(ops.iter().all(|(s, _)| *s == Strategy::ClassicBulkInterrupt));
    assert_eq!(
        ops[0].1,
        UsbOp::BulkWrite { start: 0, end: 0x1000, pause_us: 0, timeout_us: 50_000 }
    );
    match ops[1].1 {
        UsbOp::Control { pause_us, request } => {
            assert_eq!(pause_us, 0);
            assert_eq!((request.request_type, request.index, request.length), (0x82, 1, 0xFFFF));
            assert_eq!(request.timeout_us, 100_000);
        }
        _ => panic!("expected the overflow read"),
    }
    assert_eq!(
        ops[2].1,
        UsbOp::BulkWrite { start: 0, end: 0x100, pause_us: 50_000, timeout_us: 50_000 }
    );
}

#[test]
fn finished_escalation_takes_no_more_steps() {
    let (mut e, _) = Escalation::start(0x2000, EP);
    assert!(matches!(e.on_event(Err(UsbError::Timeout)), EscalationStep::Op(_)));
    assert!(matches!(e.on_event(Ok(0)), EscalationStep::Op(_)));
    assert_eq!(e.on_event(Err(UsbError::Io)), EscalationStep::Exploited(Strategy::ClassicBulkInterrupt));
    let before = e;
    for ev in [Ok(5), Err(UsbError::Timeout), Err(UsbError::Pipe)] {
        assert_eq!(e.on_event(ev), EscalationStep::Exploited(Strategy::ClassicBulkInterrupt));
        assert_eq!(e, before);
    }
}

#[test]
fn accepted_first_write_moves_to_priming() {
    let (mut e, _) = Escalation::start(0x2000, EP);
    match e.on_event(Ok(0x1000)) {
        EscalationStep::Op(UsbOp::Control { pause_us, request }) => {
            assert_eq!(pause_us, 0);
            assert_eq!((request.request_type, request.index, request.length), (0x80, 0, 0xFFFF));
            assert_eq!(request.timeout_us, 200_000);
        }
        other => panic!("unexpected step {:?}", other),
    }
    assert_eq!(e.failures.classic, Some(StrategyFailure::AcceptedNormally));
    assert_eq!(e.verdict, Verdict::Running);
}

#[test]
fn responsive_device_exhausts_all_strategies_in_order() {
    let (end, ops) = drive(0x2000, |op, _| match op {
        UsbOp::BulkWrite { start, end, .. } => Ok(end - start),
        _ => Ok(0),
    });
    assert_eq!(end, EscalationStep::AllFailed);
    let mut order: Vec<Strategy> = Vec::new();
    for (s, _) in &ops {
        if order.last() != Some(s) {
            order.push(*s);
        }
    }
    assert_eq!(
        order,
        vec![
            Strategy::ClassicBulkInterrupt,
            Strategy::PrimedDevice,
            Strategy::AggressiveTiming,
            Strategy::DeviceReset
        ]
    );
    // classic: one write; primed: 5 primes, the first chunk, then the second
    // chunk with no overflow read before it; aggressive: an overflow read and
    // a write for each of 4 pieces; reset: reset, clear halt, write, overflow
    // read, probe.
    let count = |s: Strategy| ops.iter().filter(|(t, _)| *t == s).count();
    assert_eq!(count(Strategy::ClassicBulkInterrupt), 1);
    assert_eq!(count(Strategy::PrimedDevice), 7);
    assert_eq!(count(Strategy::AggressiveTiming), 8);
    assert_eq!(count(Strategy::DeviceReset), 5);
}

#[test]
fn primed_streaming_interleaves_overflow_reads() {
    let (end, ops) = drive(0x3000, |op, _| match op {
        UsbOp::BulkWrite { start, end, .. } => Ok(end - start),
        _ => Ok(0),
    });
    assert_eq!(end, EscalationStep::AllFailed);
    let primed: Vec<UsbOp> =
        ops.iter().filter(|(s, _)| *s == Strategy::PrimedDevice).map(|(_, o)| *o).collect();
    assert_eq!(primed.len(), 9);
    assert_eq!(
        primed[5],
        UsbOp::BulkWrite { start: 0, end: 0x1000, pause_us: 10_000, timeout_us: 1_000_000 }
    );
    assert_eq!(
        primed[6],
        UsbOp::BulkWrite { start: 0x1000, end: 0x2000, pause_us: 0, timeout_us: 200_000 }
    );
    assert!(matches!(primed[7], UsbOp::Control { request, .. } if request.timeout_us == 50_000));
    assert_eq!(
        primed[8],
        UsbOp::BulkWrite { start: 0x2000, end: 0x3000, pause_us: 0, timeout_us: 200_000 }
    );
}

#[test]
fn aggressive_probe_failure_is_success() {
    // classic and primed are refused outright with a non-timeout error.
    let (end, ops) = drive(0x1000, |op, _| match op {
        UsbOp::BulkWrite { timeout_us: 10_000, .. } => Err(UsbError::Timeout),
        UsbOp::BulkWrite { timeout_us: 500, .. } => Err(UsbError::NoDevice),
        UsbOp::BulkWrite { .. } => Err(UsbError::Io),
        _ => Ok(0),
    });
    assert_eq!(end, EscalationStep::Exploited(Strategy::AggressiveTiming));
    let last = ops.last().unwrap();
    assert_eq!(last.1, UsbOp::BulkWrite { start: 0, end: 0x100, pause_us: 500, timeout_us: 500 });
}

#[test]
fn reset_strategy_runs_after_the_others() {
    let (end, ops) = drive(0x800, |op, _| match op {
        UsbOp::ResetDevice => Err(UsbError::NotSupported),
        UsbOp::BulkWrite { start: 0, end: 0x100, timeout_us: 20_000, .. } => Err(UsbError::Timeout),
        UsbOp::BulkWrite { start, end, .. } => Ok(end - start),
        _ => Ok(0),
    });
    assert_eq!(end, EscalationStep::Exploited(Strategy::DeviceReset));
    let reset: Vec<UsbOp> =
        ops.iter().filter(|(s, _)| *s == Strategy::DeviceReset).map(|(_, o)| *o).collect();
    assert_eq!(reset[0], UsbOp::ResetDevice);
    assert_eq!(reset[1], UsbOp::ClearHalt { pause_us: 0 });
    assert_eq!(
        reset[2],
        UsbOp::BulkWrite { start: 0, end: 0x800, pause_us: 0, timeout_us: 10_000 }
    );
}

#[test]
fn empty_payload_skips_aggressive_pieces() {
    let (end, ops) = drive(0, |_, _| Ok(0));
    assert_eq!(end, EscalationStep::AllFailed);
    assert!(ops.iter().all(|(s, _)| *s != Strategy::AggressiveTiming));
}

#[test]
fn primed_answered_probe_after_stream_timeout_ends_the_strategy() {
    // classic is refused outright; primed's second chunk times out and the
    // probe is answered: primed fails and aggressive timing starts.
    let (mut e, _) = Escalation::start(0x3000, EP);
    assert!(matches!(e.on_event(Err(UsbError::Io)), EscalationStep::Op(UsbOp::Control { .. })));
    for _ in 0..4 {
        assert!(matches!(e.on_event(Ok(2)), EscalationStep::Op(UsbOp::Control { .. })));
    }
    assert!(matches!(e.on_event(Ok(2)), EscalationStep::Op(UsbOp::BulkWrite { start: 0, .. })));
    assert!(matches!(e.on_event(Ok(0x1000)), EscalationStep::Op(UsbOp::BulkWrite { start: 0x1000, .. })));
    assert_eq!(
        e.on_event(Err(UsbError::Timeout)),
        EscalationStep::Op(UsbOp::BulkWrite { start: 0, end: 0x100, pause_us: 20_000, timeout_us: 20_000 })
    );
    let next = e.on_event(Ok(0x100));
    assert_eq!(e.failures.primed, Some(StrategyFailure::StillResponsive));
    assert!(matches!(e.attempt, Attempt::Aggressive(_)));
    assert!(matches!(next, EscalationStep::Op(UsbOp::Control { request, .. }) if request.timeout_us == 10_000));
}

#[test]
fn primed_zero_byte_chunk_ends_the_strategy() {
    let (end, ops) = drive(0x2000, |op, _| match op {
        UsbOp::BulkWrite { start: 0x1000, timeout_us: 200_000, .. } => Ok(0),
        UsbOp::BulkWrite { start, end, .. } => Ok(end - start),
        _ => Ok(0),
    });
    assert_eq!(end, EscalationStep::AllFailed);
    let primed = ops.iter().filter(|(s, _)| *s == Strategy::PrimedDevice).count();
    assert_eq!(primed, 7);
}

#[test]
fn unresponsive_device_after_stream_timeout_is_success() {
    let (end, _) = drive(0x2000, |op, _| match op {
        UsbOp::BulkWrite { timeout_us: 50_000, .. } => Ok(0x1000),
        UsbOp::BulkWrite { start: 0x1000, .. } => Err(UsbError::Timeout),
        UsbOp::BulkWrite { timeout_us: 20_000, .. } => Err(UsbError::NoDevice),
        UsbOp::BulkWrite { start, end, .. } => Ok(end - start),
        _ => Ok(0),
    });
    assert_eq!(end, EscalationStep::Exploited(Strategy::PrimedDevice));
}
