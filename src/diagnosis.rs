use vstd::prelude::*;
use crate::usb::{ControlRead, GET_STATUS, STANDARD_REQUEST_DEVICE_TO_HOST, UsbError};

verus! {

/// Length of the status read of a diagnosis.
pub const STATUS_LENGTH: usize = 2;

/// Length of the test write of a diagnosis.
pub const TEST_WRITE_LENGTH: usize = 0x40;

pub const STATUS_TIMEOUT_US: u64 = 100_000;

pub const TEST_WRITE_TIMEOUT_US: u64 = 50_000;

/// A check of whether the device answers at all, and takes bulk data.
#[derive(Debug, Clone, Copy, PartialEq, Eq, Structural)]
pub enum DiagnosisStep {
    /// Issue this device-level GET_STATUS read.
    StatusRead(ControlRead),
    /// Write `length` zero bytes to the bulk endpoint with this timeout.
    TestWrite { length: usize, timeout_us: u64 },
    /// The device answers and takes bulk data.
    Healthy,
    /// The status read failed.
    ControlFailed(UsbError),
    /// The test write timed out: the device is likely not in recovery mode.
    NotAcceptingBulk,
    /// The test write failed otherwise.
    BulkFailed(UsbError),
}

pub open spec fn status_read() -> ControlRead {
    ControlRead {
        request_type: STANDARD_REQUEST_DEVICE_TO_HOST,
        request: GET_STATUS,
        value: 0,
        index: 0,
        length: STATUS_LENGTH,
        timeout_us: STATUS_TIMEOUT_US,
    }
}

/// The first step of a diagnosis: the status read.
pub fn diagnose_device_state() -> (r: DiagnosisStep)
    ensures
        r == DiagnosisStep::StatusRead(status_read()),
{
    DiagnosisStep::StatusRead(
        ControlRead {
            request_type: STANDARD_REQUEST_DEVICE_TO_HOST,
            request: GET_STATUS,
            value: 0,
            index: 0,
            length: STATUS_LENGTH,
            timeout_us: STATUS_TIMEOUT_US,
        },
    )
}

/// The step after `step` answered `ev`: a failed status read ends the
/// diagnosis, an answered one leads to the test write, whose outcome decides.
pub fn diagnosis_next(step: DiagnosisStep, ev: Result<usize, UsbError>) -> (r: DiagnosisStep)
    ensures
        match step {
            DiagnosisStep::StatusRead(_) => match ev {
                Ok(_) => r == (DiagnosisStep::TestWrite {
                    length: TEST_WRITE_LENGTH,
                    timeout_us: TEST_WRITE_TIMEOUT_US,
                }),
                Err(e) => r == DiagnosisStep::ControlFailed(e),
            },
            DiagnosisStep::TestWrite { .. } => match ev {
                Ok(_) => r == DiagnosisStep::Healthy,
                Err(UsbError::Timeout) => r == DiagnosisStep::NotAcceptingBulk,
                Err(e) => r == DiagnosisStep::BulkFailed(e),
            },
            _ => r == step,
        },
{
    match step {
        DiagnosisStep::StatusRead(_) => match ev {
            Ok(_) => DiagnosisStep::TestWrite { length: TEST_WRITE_LENGTH, timeout_us: TEST_WRITE_TIMEOUT_US },
            Err(e) => DiagnosisStep::ControlFailed(e),
        },
        DiagnosisStep::TestWrite { .. } => match ev {
            Ok(_) => DiagnosisStep::Healthy,
            Err(UsbError::Timeout) => DiagnosisStep::NotAcceptingBulk,
            Err(e) => DiagnosisStep::BulkFailed(e),
        },
        _ => step,
    }
}

} // verus!
