//! RX mode bits
use vstd::prelude::*;

verus! {

pub const ACCEPT_ERR: u32 = 0x20;
pub const ACCEPT_RUNT: u32 = 0x10;
pub const ACCEPT_BROADCAST: u32 = 0x08;
pub const ACCEPT_MULTICAST: u32 = 0x04;
pub const ACCEPT_MY_PHYS: u32 = 0x02;
pub const ACCEPT_ALL_PHYS: u32 = 0x01;

} // verus!
