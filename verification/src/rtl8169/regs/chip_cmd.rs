//! ChipCmd register bits.
use vstd::prelude::*;

verus! {

pub const CMD_RESET: u8 = 0x10;
pub const CMD_RX_ENB: u8 = 0x08;
pub const CMD_TX_ENB: u8 = 0x04;
pub const RX_BUF_EMPTY: u8 = 0x01;

} // verus!
