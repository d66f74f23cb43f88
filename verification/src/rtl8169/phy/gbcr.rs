//! GBCR (1000BASE-T Control) bits.
use vstd::prelude::*;

verus! {

pub const _1000BASE_T_FULL: u16 = 0x0200;
pub const _1000BASE_T_HALF: u16 = 0x0100;

} // verus!
