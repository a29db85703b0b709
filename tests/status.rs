use rcm_inject::status::{listable_devices, scan_devices, DeviceInfo, DeviceScan, RcmStatus};

#[test]
fn scan_prefers_rcm_device() {
    let descs = [Some((0x057E, 0x2000)), None, Some((0x0955, 0x7321))];
    assert_eq!(scan_devices(&descs), DeviceScan::Rcm(2));
    assert_eq!(scan_devices(&descs[..2]), DeviceScan::NotInRcm(0));
    assert_eq!(scan_devices(&[None, Some((1, 2))]), DeviceScan::Absent);
}

#[test]
fn scan_looks_at_twenty_devices() {
    let mut descs = vec![Some((1u16, 1u16)); 20];
    descs.push(Some((0x0955, 0x7321)));
    assert_eq!(scan_devices(&descs), DeviceScan::Absent);
}

#[test]
fn status_from_scan() {
    let info = DeviceInfo {
        vendor_id: 0x0955,
        product_id: 0x7321,
        manufacturer: Some("NVIDIA Corp.".to_string()),
        product: None,
        serial_number: None,
    };
    let st = RcmStatus::from_scan(DeviceScan::Rcm(0), Some(info));
    assert!(st.device_connected && st.rcm_detected && !st.switch_connected_not_rcm);
    assert_eq!(st.device_info.unwrap().vendor_id, 0x0955);
    let st = RcmStatus::from_scan(DeviceScan::NotInRcm(1), None);
    assert!(st.device_connected && !st.rcm_detected && st.switch_connected_not_rcm);
    let st = RcmStatus::from_scan(DeviceScan::Absent, None);
    assert!(!st.device_connected && st.device_info.is_none());
}

#[test]
fn listing_skips_unreadable_and_zero_ids() {
    let descs = [Some((0x0955, 0x7321)), None, Some((0, 5)), Some((5, 0)), Some((0x046D, 0xC52B))];
    assert_eq!(listable_devices(&descs), vec![0, 4]);
    let many = vec![Some((1u16, 1u16)); 60];
    assert_eq!(listable_devices(&many), (0..50).collect::<Vec<usize>>());
}
