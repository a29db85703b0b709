use vstd::prelude::*;
use crate::layout::{CHUNK_SIZE, zeros};
use crate::usb::{Backend, ControlRead, UsbError, overflow_request, TRANSFER_TIMEOUT_US};

verus! {

/// Base address of the low DMA buffer.
pub const COPY_BUFFER_LOW: u32 = 0x40005000;

/// Base address of the high DMA buffer.
pub const COPY_BUFFER_HIGH: u32 = 0x40009000;

/// The address just after the end of the device's stack.
pub const STACK_END: u32 = 0x40010000;

/// Number of bytes in the device id.
pub const DEVICE_ID_LENGTH: usize = 16;

/// Pause between two looks for a device, in milliseconds.
pub const DEVICE_POLL_INTERVAL_MS: u64 = 500;

/// Which of the two DMA buffers the boot ROM copies from next.
#[derive(Debug, Clone, Copy, PartialEq, Eq, Structural)]
pub enum BufferSlot {
    Low,
    High,
}

pub open spec fn toggle(s: BufferSlot) -> BufferSlot {
    match s {
        BufferSlot::Low => BufferSlot::High,
        BufferSlot::High => BufferSlot::Low,
    }
}

/// The slot after `n` completed single-buffer writes from `s`.
pub open spec fn toggled(s: BufferSlot, n: nat) -> BufferSlot
    decreases n,
{
    if n == 0 {
        s
    } else {
        toggle(toggled(s, (n - 1) as nat))
    }
}

pub open spec fn buffer_address(s: BufferSlot) -> u32 {
    match s {
        BufferSlot::Low => COPY_BUFFER_LOW,
        BufferSlot::High => COPY_BUFFER_HIGH,
    }
}

/// A session starts on the low buffer and each completed single-buffer write
/// toggles it: after `n` writes it is low when `n` is even, high when odd.
pub proof fn lemma_slot_parity(n: nat)
    ensures
        toggled(BufferSlot::Low, n) == (if n % 2 == 0 { BufferSlot::Low } else { BufferSlot::High }),
    decreases n,
{
    if n > 0 {
        lemma_slot_parity((n - 1) as nat);
    }
}

/// Why a session could not be set up.
#[derive(Debug, Clone, Copy, PartialEq, Eq, Structural)]
pub enum SessionError {
    /// No backend can reach the device from this host.
    NoBackend,
    /// No device was found and waiting was not asked for.
    NoDevice,
}

/// What to do after one look for the device.
#[derive(Debug, Clone, Copy, PartialEq, Eq, Structural)]
pub enum DeviceLookup {
    /// Open the device that was found.
    Proceed,
    /// Pause, then look again.
    WaitAndRetry { pause_ms: u64 },
    /// Give up at once.
    Fail(SessionError),
}

/// The state of one connection to a device in recovery mode.
pub struct RCMHax {
    pub backend: Backend,
    pub current_buffer: BufferSlot,
}

impl RCMHax {
    /// A session on this host's backend, once a look for the device is made.
    /// When it was found, the session starts on the low buffer, which the boot
    /// ROM's first write touches. Otherwise the error says what `find_step`
    /// says: pause and look again when waiting was asked for, else fail at
    /// once with `NoDevice`.
    pub fn new(
        wait_for_device: bool,
        os_override: Option<&str>,
        override_checks: bool,
        device_found: bool,
    ) -> (r: Result<Self, DeviceLookup>)
        ensures
            device_found ==> r is Ok && r->Ok_0.current_buffer == BufferSlot::Low
                && r->Ok_0.backend.skip_checks == override_checks,
            !device_found && wait_for_device ==> r == Err::<Self, DeviceLookup>(
                DeviceLookup::WaitAndRetry { pause_ms: DEVICE_POLL_INTERVAL_MS },
            ),
            !device_found && !wait_for_device ==> r == Err::<Self, DeviceLookup>(
                DeviceLookup::Fail(SessionError::NoDevice),
            ),
    {
        let backend = match Backend::create_appropriate_backend(os_override, override_checks) {
            Ok(backend) => backend,
            Err(_) => {
                return Err(DeviceLookup::Fail(SessionError::NoBackend));
            },
        };
        match Self::find_step(device_found, wait_for_device) {
            DeviceLookup::Proceed => Ok(Self { backend, current_buffer: BufferSlot::Low }),
            other => Err(other),
        }
    }

    /// After one look for the device: open it if found; else pause and look
    /// again when waiting was asked for, or fail at once with `NoDevice`.
    pub fn find_step(found: bool, wait_for_device: bool) -> (r: DeviceLookup)
        ensures
            found ==> r == DeviceLookup::Proceed,
            !found && wait_for_device ==> r == (DeviceLookup::WaitAndRetry {
                pause_ms: DEVICE_POLL_INTERVAL_MS,
            }),
            !found && !wait_for_device ==> r == DeviceLookup::Fail(SessionError::NoDevice),
    {
        if found {
            DeviceLookup::Proceed
        } else if wait_for_device {
            DeviceLookup::WaitAndRetry { pause_ms: DEVICE_POLL_INTERVAL_MS }
        } else {
            DeviceLookup::Fail(SessionError::NoDevice)
        }
    }

    /// Records the outcome of one single-buffer write: a completed write
    /// toggles the buffer slot, a failed one leaves it. The outcome is passed on.
    pub fn write_single_buffer(&mut self, outcome: Result<usize, UsbError>) -> (r: Result<
        usize,
        UsbError,
    >)
        ensures
            r == outcome,
            final(self).backend == old(self).backend,
            final(self).current_buffer == (if outcome is Ok {
                toggle(old(self).current_buffer)
            } else {
                old(self).current_buffer
            }),
    {
        if outcome.is_ok() {
            self.toggle_buffer();
        }
        outcome
    }

    fn toggle_buffer(&mut self)
        ensures
            final(self).backend == old(self).backend,
            final(self).current_buffer == toggle(old(self).current_buffer),
    {
        self.current_buffer = match self.current_buffer {
            BufferSlot::Low => BufferSlot::High,
            BufferSlot::High => BufferSlot::Low,
        };
    }

    /// Base address of the buffer the next copy comes from.
    pub fn get_current_buffer_address(&self) -> (r: u32)
        ensures
            r == buffer_address(self.current_buffer),
    {
        match self.current_buffer {
            BufferSlot::Low => COPY_BUFFER_LOW,
            BufferSlot::High => COPY_BUFFER_HIGH,
        }
    }

    /// The device id, when the read succeeded. A failed read is not fatal:
    /// some device states do not answer it.
    pub fn read_device_id(&self, outcome: Result<Vec<u8>, UsbError>) -> (r: Option<Vec<u8>>)
        ensures
            match outcome {
                Ok(v) => r is Some && r->Some_0@ == v@,
                Err(_) => r is None,
            },
    {
        match outcome {
            Ok(v) => Some(v),
            Err(_) => None,
        }
    }

    /// The all-zero buffer to write so that the next copy comes from the high
    /// buffer; none when it already does.
    pub fn switch_to_highbuf(&self) -> (r: Option<Vec<u8>>)
        ensures
            self.current_buffer == BufferSlot::High ==> r is None,
            self.current_buffer == BufferSlot::Low ==> r is Some && r->Some_0@ == zeros(
                CHUNK_SIZE as nat,
            ),
    {
        if self.get_current_buffer_address() != COPY_BUFFER_HIGH {
            let v: Vec<u8> = vec![0u8; CHUNK_SIZE];
            assert(v@ =~= zeros(CHUNK_SIZE as nat));
            Some(v)
        } else {
            None
        }
    }

    /// The trigger transfer: `length` bytes when given, else exactly enough to
    /// copy from the current buffer's base to the end of the stack.
    pub fn trigger_controlled_memcpy(&self, length: Option<usize>) -> (r: ControlRead)
        ensures
            r == overflow_request(
                0,
                match length {
                    Some(n) => n,
                    None => (STACK_END - buffer_address(self.current_buffer)) as usize,
                },
                TRANSFER_TIMEOUT_US,
            ),
    {
        let n = match length {
            Some(n) => n,
            None => (STACK_END - self.get_current_buffer_address()) as usize,
        };
        self.backend.trigger_vulnerability(n)
    }
}

} // verus!
