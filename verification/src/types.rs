//! Types shared by all drivers: the MAC address and the device error.
use vstd::prelude::*;

verus! {

/// A 48-bit Ethernet (MAC) address.
#[derive(Debug, Clone, Copy, PartialEq, Eq)]
pub struct EthernetAddress(pub [u8; 6]);

/// Why a device operation failed.
#[derive(Debug, Clone, Copy, PartialEq, Eq, Structural)]
pub enum DevError {
    /// An entity already exists.
    AlreadyExists,
    /// Try again, for non-blocking APIs.
    Again,
    /// Bad internal state.
    BadState,
    /// Invalid parameter/argument.
    InvalidParam,
    /// Input/output error.
    Io,
    /// Not enough space/cannot allocate memory (DMA).
    NoMemory,
    /// Device or resource is busy.
    ResourceBusy,
    /// This operation is unsupported or unimplemented.
    Unsupported,
}

/// The result of a device operation.
pub type DevResult<T = ()> = Result<T, DevError>;

} // verus!
