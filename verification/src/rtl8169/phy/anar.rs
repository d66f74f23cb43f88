//! ANAR (Auto-negotiation Advertisement) bits.
use vstd::prelude::*;

verus! {

pub const NEXT_PAGE: u16 = 0x8000;
pub const REMOTE_FAULT: u16 = 0x2000;
pub const PAUSE: u16 = 0x0400;
pub const _100BASE_T4: u16 = 0x0200;
pub const _100BASE_TX_FULL: u16 = 0x0100;
pub const _100BASE_TX_HALF: u16 = 0x0080;
pub const _10BASE_T_FULL: u16 = 0x0040;
pub const _10BASE_T_HALF: u16 = 0x0020;
pub const SELECTOR: u16 = 0x001F;

} // verus!
