//! Delivery of a first-stage binary to a boot ROM in USB recovery mode (RCM),
//! through the boot ROM's oversized-copy flaw.
//!
//! The library holds the decisions: the byte layout of the upload, the state
//! of the device's two DMA buffers, how transfer results are read, and the
//! escalating trigger strategies as state machines. The USB transfers and
//! the pauses between them are performed by the caller, which hands each
//! result back.
pub mod layout;
pub mod usb;
pub mod session;
pub mod escalation;
pub mod primary;
pub mod status;
pub mod diagnosis;
