//! Receive status bits.
use vstd::prelude::*;

verus! {

pub const RX_RES: u32 = 0x00200000;
pub const RX_CRC: u32 = 0x00080000;
pub const RX_RUNT: u32 = 0x00100000;
pub const RX_RWT: u32 = 0x00400000;

} // verus!
