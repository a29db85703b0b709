use vstd::prelude::*;
use crate::usb::{RCM_PID, RCM_VID};

verus! {

/// Vendor id of the console when it is attached outside recovery mode.
pub const SWITCH_VENDOR_ID: u16 = 0x057E;

/// Number of attached devices a status scan looks at.
pub const SCAN_LIMIT: usize = 20;

/// What is known of one attached USB device.
pub struct DeviceInfo {
    pub vendor_id: u16,
    pub product_id: u16,
    pub manufacturer: Option<String>,
    pub product: Option<String>,
    pub serial_number: Option<String>,
}

/// Whether a device in recovery mode, or the console outside it, is attached.
pub struct RcmStatus {
    pub device_connected: bool,
    pub device_info: Option<DeviceInfo>,
    pub rcm_detected: bool,
    pub switch_connected_not_rcm: bool,
}

/// What a scan of the attached devices found.
#[derive(Debug, Clone, Copy, PartialEq, Eq, Structural)]
pub enum DeviceScan {
    /// The device at this index is in recovery mode.
    Rcm(usize),
    /// The device at this index is the console outside recovery mode.
    NotInRcm(usize),
    Absent,
}

pub open spec fn is_rcm(d: Option<(u16, u16)>) -> bool {
    d == Some((RCM_VID, RCM_PID))
}

pub open spec fn is_console(d: Option<(u16, u16)>) -> bool {
    d is Some && d->Some_0.0 == SWITCH_VENDOR_ID
}

pub open spec fn scanned(n: nat) -> nat {
    if n < SCAN_LIMIT { n } else { SCAN_LIMIT as nat }
}

/// Looks at the first `SCAN_LIMIT` devices (absent descriptors are those that
/// could not be read): the first in recovery mode wins; failing that, the
/// first with the console's vendor id.
pub fn scan_devices(descriptors: &[Option<(u16, u16)>]) -> (r: DeviceScan)
    ensures
        ({
            let d = descriptors@;
            let n = scanned(d.len()) as int;
            match r {
                DeviceScan::Rcm(i) => i < n && is_rcm(d[i as int]) && forall|j: int|
                    0 <= j < i ==> !is_rcm(#[trigger] d[j]),
                DeviceScan::NotInRcm(i) => i < n && is_console(d[i as int]) && (forall|j: int|
                    0 <= j < n ==> !is_rcm(#[trigger] d[j])) && forall|j: int|
                    0 <= j < i ==> !is_console(#[trigger] d[j]),
                DeviceScan::Absent => forall|j: int|
                    0 <= j < n ==> !is_rcm(#[trigger] d[j]) && !is_console(d[j]),
            }
        }),
{
    let n = if descriptors.len() < SCAN_LIMIT { descriptors.len() } else { SCAN_LIMIT };
    let mut i: usize = 0;
    while i < n
        invariant
            i <= n,
            n == scanned(descriptors@.len()),
            forall|j: int| 0 <= j < i ==> !is_rcm(#[trigger] descriptors@[j]),
        decreases n - i,
    {
        if descriptors[i] == Some((RCM_VID, RCM_PID)) {
            return DeviceScan::Rcm(i);
        }
        i = i + 1;
    }
    let mut i: usize = 0;
    while i < n
        invariant
            i <= n,
            n == scanned(descriptors@.len()),
            forall|j: int| 0 <= j < n ==> !is_rcm(#[trigger] descriptors@[j]),
            forall|j: int| 0 <= j < i ==> !is_console(#[trigger] descriptors@[j]),
        decreases n - i,
    {
        match descriptors[i] {
            Some((v, _)) => {
                if v == SWITCH_VENDOR_ID {
                    return DeviceScan::NotInRcm(i);
                }
            },
            None => {},
        }
        i = i + 1;
    }
    DeviceScan::Absent
}

impl RcmStatus {
    /// The status a scan reports; `info` describes the device it found.
    pub fn from_scan(scan: DeviceScan, info: Option<DeviceInfo>) -> (r: RcmStatus)
        ensures
            r.device_connected == !(scan is Absent),
            r.rcm_detected == (scan is Rcm),
            r.switch_connected_not_rcm == (scan is NotInRcm),
            scan is Absent ==> r.device_info is None,
            !(scan is Absent) ==> r.device_info == info,
    {
        match scan {
            DeviceScan::Rcm(_) => RcmStatus {
                device_connected: true,
                device_info: info,
                rcm_detected: true,
                switch_connected_not_rcm: false,
            },
            DeviceScan::NotInRcm(_) => RcmStatus {
                device_connected: true,
                device_info: info,
                rcm_detected: false,
                switch_connected_not_rcm: true,
            },
            DeviceScan::Absent => RcmStatus {
                device_connected: false,
                device_info: None,
                rcm_detected: false,
                switch_connected_not_rcm: false,
            },
        }
    }
}


/// Number of attached devices a listing looks at.
pub const LIST_LIMIT: usize = 50;

/// A device worth listing: its descriptor was read and neither id is zero.
pub open spec fn listable(d: Option<(u16, u16)>) -> bool {
    d is Some && d->Some_0.0 != 0 && d->Some_0.1 != 0
}

/// Indices, in order, of the listable devices among the first `LIST_LIMIT`.
pub fn listable_devices(descriptors: &[Option<(u16, u16)>]) -> (r: Vec<usize>)
    ensures
        ({
            let d = descriptors@;
            let n = if d.len() < LIST_LIMIT { d.len() as int } else { LIST_LIMIT as int };
            &&& forall|k: int| 0 <= k < r@.len() ==> #[trigger] r@[k] < n && listable(d[r@[k] as int])
            &&& forall|k: int, l: int| 0 <= k < l < r@.len() ==> #[trigger] r@[k] < #[trigger] r@[l]
            &&& forall|j: int| 0 <= j < n && listable(#[trigger] d[j]) ==> r@.contains(j as usize)
        }),
{
    let n = if descriptors.len() < LIST_LIMIT { descriptors.len() } else { LIST_LIMIT };
    let mut r: Vec<usize> = Vec::new();
    let mut i: usize = 0;
    while i < n
        invariant
            i <= n,
            n as int == (if descriptors@.len() < LIST_LIMIT { descriptors@.len() as int } else { LIST_LIMIT as int }),
            forall|k: int| 0 <= k < r@.len() ==> #[trigger] r@[k] < i && listable(descriptors@[r@[k] as int]),
            forall|k: int, l: int| 0 <= k < l < r@.len() ==> #[trigger] r@[k] < #[trigger] r@[l],
            forall|j: int| 0 <= j < i && listable(#[trigger] descriptors@[j]) ==> r@.contains(j as usize),
        decreases n - i,
    {
        let keep = match descriptors[i] {
            Some((v, p)) => v != 0 && p != 0,
            None => false,
        };
        if keep {
            let ghost before = r@;
            r.push(i);
            assert forall|j: int| 0 <= j < i && listable(#[trigger] descriptors@[j]) implies r@.contains(
                j as usize,
            ) by {
                let k = choose|k: int| 0 <= k < before.len() && before[k] == j as usize;
                assert(r@[k] == j as usize);
            }
            assert(r@[r@.len() - 1] == i);
        }
        i = i + 1;
    }
    r
}

} // verus!
