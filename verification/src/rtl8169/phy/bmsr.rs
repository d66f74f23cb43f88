//! BMSR (Basic Mode Status Register) bits.
use vstd::prelude::*;

verus! {

pub const _100BASE_T4: u16 = 0x8000;
pub const _100BASE_TX_FULL: u16 = 0x4000;
pub const _100BASE_TX_HALF: u16 = 0x2000;
pub const _10BASE_T_FULL: u16 = 0x1000;
pub const _10BASE_T_HALF: u16 = 0x0800;
/// Auto-negotiation complete
pub const AN_COMPLETE: u16 = 0x0020;
pub const REMOTE_FAULT: u16 = 0x0010;
/// Auto-negotiation capable
pub const AN_CAPABLE: u16 = 0x0008;
/// Link status
pub const LINK_STATUS: u16 = 0x0004;
pub const JABBER_DETECT: u16 = 0x0002;
pub const EXTENDED_CAP: u16 = 0x0001;

} // verus!
