use rcm_inject::diagnosis::{diagnose_device_state, diagnosis_next, DiagnosisStep};
use rcm_inject::usb::UsbError;

#[test]
fn healthy_device() {
    let first = diagnose_device_state();
    match first {
        DiagnosisStep::StatusRead(req) => {
            assert_eq!((req.request_type, req.request, req.length, req.timeout_us), (0x80, 0, 2, 100_000));
        }
        other => panic!("unexpected {:?}", other),
    }
    let write = diagnosis_next(first, Ok(2));
    assert_eq!(write, DiagnosisStep::TestWrite { length: 0x40, timeout_us: 50_000 });
    assert_eq!(diagnosis_next(write, Ok(0x40)), DiagnosisStep::Healthy);
}

#[test]
fn diagnosis_failures() {
    let first = diagnose_device_state();
    assert_eq!(diagnosis_next(first, Err(UsbError::Pipe)), DiagnosisStep::ControlFailed(UsbError::Pipe));
    let write = diagnosis_next(first, Ok(2));
    assert_eq!(diagnosis_next(write, Err(UsbError::Timeout)), DiagnosisStep::NotAcceptingBulk);
    assert_eq!(diagnosis_next(write, Err(UsbError::Io)), DiagnosisStep::BulkFailed(UsbError::Io));
}
