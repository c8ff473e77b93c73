//! Host-side logic of a debug-probe tool for TriCore targets.
//!
//! The library covers the two algorithmic parts of the tool: draining a
//! firmware log out of an RTT ring buffer in target RAM, and reconstructing a
//! call stack by walking the chain of hardware-saved register contexts (CSAs).
//! All target I/O (memory reads and writes, breakpoints, run control) is
//! performed by the surrounding application through a debug-probe capability;
//! this crate makes every decision about what to read, what the bytes mean,
//! and when the session is finished.

use vstd::prelude::*;

pub mod backtrace;
pub mod csa;
pub mod drain;
pub mod extract;
pub mod mcd;
pub mod pcxi;
pub mod rpc;
pub mod rtt;
pub mod stacktrace;

verus! {

/// A target device a probe backend can connect to.
pub trait Device {
    /// A human-readable description of the hardware behind the device.
    fn hardware_description(&self) -> &str;
}

/// Why an extraction or unwinding session failed.
#[derive(Debug, Clone, Copy, PartialEq, Eq, Structural)]
pub enum ProbeError {
    /// The target's memory did not hold what the RTT protocol mandates.
    Protocol(ProtocolViolation),
    /// A probe transaction (memory, register or run-control) failed.
    Device,
    /// A register required for the saved-context snapshot is absent.
    RegisterNotFound,
}

/// The precise protocol violation behind a `ProbeError::Protocol`.
#[derive(Debug, Clone, Copy, PartialEq, Eq, Structural)]
pub enum ProtocolViolation {
    /// The 16 id bytes of the control block differ from the fixed tag.
    MalformedControlBlock,
    /// The device write index exceeds the declared ring-buffer size.
    WriteIndexOutOfBounds,
    /// Buffer start address plus buffer size overflows the 32-bit address space.
    BufferDescriptorTooLarge,
}

} // verus!
