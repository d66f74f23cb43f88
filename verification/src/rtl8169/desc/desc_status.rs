//! Descriptor status bits.
use vstd::prelude::*;

verus! {

/// Descriptor owned by NIC.
pub const OWN: u32 = 0x80000000;
/// End of ring.
pub const EOR: u32 = 0x40000000;
/// First segment.
pub const FS: u32 = 0x20000000;
/// Last segment.
pub const LS: u32 = 0x10000000;

} // verus!
