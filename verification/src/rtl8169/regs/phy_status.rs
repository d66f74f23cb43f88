//! PHY status register bits.
use vstd::prelude::*;

verus! {

pub const TBI_ENABLE: u8 = 0x80;
pub const TX_FLOW_CTRL: u8 = 0x40;
pub const RX_FLOW_CTRL: u8 = 0x20;
pub const _1000BPSF: u8 = 0x10;
pub const _100BPS: u8 = 0x08;
pub const _10BPS: u8 = 0x04;
pub const LINK_STATUS: u8 = 0x02;
pub const FULL_DUP: u8 = 0x01;

} // verus!
