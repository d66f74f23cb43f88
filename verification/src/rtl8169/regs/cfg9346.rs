//! Cfg9346 register bits
use vstd::prelude::*;

verus! {

pub const LOCK: u8 = 0x00;
pub const UNLOCK: u8 = 0xC0;

} // verus!
