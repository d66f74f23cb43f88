//! Interrupt status bits
use vstd::prelude::*;

verus! {

pub const SYS_ERR: u16 = 0x8000;
pub const PCS_TIMEOUT: u16 = 0x4000;
pub const SW_INT: u16 = 0x0100;
pub const TX_DESC_UNAVAIL: u16 = 0x80;
pub const RX_FIFO_OVER: u16 = 0x40;
pub const RX_UNDERRUN: u16 = 0x20;
pub const RX_OVERFLOW: u16 = 0x10;
pub const TX_ERR: u16 = 0x08;
pub const TX_OK: u16 = 0x04;
pub const RX_ERR: u16 = 0x02;
pub const RX_OK: u16 = 0x01;

} // verus!
