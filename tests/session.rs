use rcm_inject::session::{BufferSlot, DeviceLookup, RCMHax, SessionError};
use rcm_inject::usb::{Backend, UsbError};

fn session() -> RCMHax {
    RCMHax::new(false, None, false, true).unwrap()
}

#[test]
fn slot_parity_after_writes() {
    let mut s = session();
    assert_eq!(s.current_buffer, BufferSlot::Low);
    for n in 1..=7usize {
        assert_eq!(s.write_single_buffer(Ok(0x1000)), Ok(0x1000));
        let want = if n % 2 == 0 { BufferSlot::Low } else { BufferSlot::High };
        assert_eq!(s.current_buffer, want);
    }
}

#[test]
fn failed_write_keeps_slot() {
    let mut s = session();
    assert_eq!(s.write_single_buffer(Err(UsbError::Pipe)), Err(UsbError::Pipe));
    assert_eq!(s.current_buffer, BufferSlot::Low);
}

#[test]
fn buffer_addresses_and_trigger_length() {
    let mut s = session();
    assert_eq!(s.get_current_buffer_address(), 0x40005000);
    assert_eq!(s.trigger_controlled_memcpy(None).length, 0xB000);
    assert_eq!(s.trigger_controlled_memcpy(Some(0x1234)).length, 0x1234);
    s.write_single_buffer(Ok(1)).unwrap();
    assert_eq!(s.get_current_buffer_address(), 0x40009000);
    let req = s.trigger_controlled_memcpy(None);
    assert_eq!(req.length, 0x7000);
    assert_eq!((req.request_type, req.request, req.value, req.index), (0x82, 0, 0, 0));
    assert_eq!(req.timeout_us, 1_000_000);
}

#[test]
fn switch_to_highbuf_only_from_low() {
    let mut s = session();
    let dummy = s.switch_to_highbuf().unwrap();
    assert_eq!(dummy.len(), 0x1000);
    assert!(dummy.iter().all(|&b| b == 0));
    s.write_single_buffer(Ok(0x1000)).unwrap();
    assert!(s.switch_to_highbuf().is_none());
}

#[test]
fn new_session_without_device() {
    assert!(matches!(
        RCMHax::new(false, None, false, false),
        Err(DeviceLookup::Fail(SessionError::NoDevice))
    ));
    assert!(matches!(
        RCMHax::new(true, None, false, false),
        Err(DeviceLookup::WaitAndRetry { pause_ms: 500 })
    ));
    let s = RCMHax::new(true, Some("linux"), true, true).unwrap();
    assert_eq!(s.current_buffer, BufferSlot::Low);
    assert!(s.backend.skip_checks);
}

#[test]
fn missing_device_without_waiting_fails_at_once() {
    assert_eq!(RCMHax::find_step(false, false), DeviceLookup::Fail(SessionError::NoDevice));
    assert_eq!(RCMHax::find_step(false, true), DeviceLookup::WaitAndRetry { pause_ms: 500 });
    assert_eq!(RCMHax::find_step(true, false), DeviceLookup::Proceed);
}

#[test]
fn device_id_read_is_best_effort() {
    let s = session();
    assert_eq!(s.read_device_id(Ok(vec![7u8; 16])), Some(vec![7u8; 16]));
    assert_eq!(s.read_device_id(Err(UsbError::Timeout)), None);
}

#[test]
fn trigger_outcomes() {
    let b = Backend::new(false);
    assert_eq!(b.trigger_result(Err(UsbError::Timeout)), Ok(()));
    assert_eq!(b.trigger_result(Ok(0)), Ok(()));
    assert_eq!(b.trigger_result(Err(UsbError::Io)), Err(UsbError::Io));
    let req = b.trigger_vulnerability(0x7000);
    assert_eq!((req.request_type, req.request, req.value, req.index), (0x82, 0, 0, 0));
    assert_eq!((req.length, req.timeout_us), (0x7000, 1_000_000));
}

#[test]
fn find_device_defaults_to_rcm_ids() {
    let b = Backend::create_appropriate_backend(None, true).unwrap();
    assert!(b.skip_checks);
    let descs = [None, Some((0x1234, 0x7321)), Some((0x0955, 0x7321)), Some((0x0955, 0x7321))];
    assert_eq!(b.find_device(None, None, &descs), Ok(2));
    assert_eq!(b.find_device(Some(0x1234), None, &descs), Ok(1));
    assert_eq!(b.find_device(Some(1), Some(2), &descs), Err(UsbError::NoDevice));
}

#[test]
fn read_keeps_received_bytes() {
    let b = Backend::new(false);
    assert_eq!(b.read(vec![1, 2, 3, 4], Ok(2)), Ok(vec![1, 2]));
    assert_eq!(b.read(vec![1, 2], Err(UsbError::Busy)), Err(UsbError::Busy));
}
