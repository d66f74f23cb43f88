//! PHY register addresses.
use vstd::prelude::*;

verus! {

/// Basic Mode Control Register
pub const BMCR: u8 = 0;
/// Basic Mode Status Register
pub const BMSR: u8 = 1;
/// Auto-negotiation Advertisement
pub const ANAR: u8 = 4;
/// 1000BASE-T Control Register
pub const GBCR: u8 = 9;

} // verus!
