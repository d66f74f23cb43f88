//! BMCR (Basic Mode Control Register) bits.
use vstd::prelude::*;

verus! {

pub const RESET: u16 = 0x8000;
pub const LOOPBACK: u16 = 0x4000;
/// Speed select (LSB)
pub const SPEED_SEL_LSB: u16 = 0x2000;
/// Auto-negotiation enable
pub const AN_ENABLE: u16 = 0x1000;
pub const POWER_DOWN: u16 = 0x0800;
pub const ISOLATE: u16 = 0x0400;
/// Restart auto-negotiation
pub const AN_RESTART: u16 = 0x0200;
/// Full duplex
pub const DUPLEX_MODE: u16 = 0x0100;
pub const COLLISION_TEST: u16 = 0x0080;
/// Speed select (MSB)
pub const SPEED_SEL_MSB: u16 = 0x0040;

} // verus!
