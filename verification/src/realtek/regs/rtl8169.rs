//! RTL8169/8168/8111 register offsets
use vstd::prelude::*;

verus! {

// Re-export MAC address registers for consistency
/// MAC address (same as MAC0)
pub const IDR0: u16 = 0x00;
/// MAC address
pub const MAC0: u16 = 0x00;
/// MAC address (continued)
pub const MAC4: u16 = 0x04;
/// Multicast filter
pub const MAR0: u16 = 0x08;
/// Multicast filter (continued)
pub const MAR4: u16 = 0x0C;
/// Dump Tally Counter Command
pub const DTCCR: u16 = 0x10;
/// Transmit Normal Priority Descriptors (low)
pub const TNPDS_LO: u16 = 0x20;
/// Transmit Normal Priority Descriptors (high)
pub const TNPDS_HI: u16 = 0x24;
/// Transmit High Priority Descriptors (low)
pub const THPDS_LO: u16 = 0x28;
/// Transmit High Priority Descriptors (high)
pub const THPDS_HI: u16 = 0x2C;
/// Command Register
pub const CMD: u16 = 0x37;
/// Transmit Priority Polling
pub const TPPOLL: u16 = 0x38;
/// Interrupt Mask Register
pub const IMR: u16 = 0x3C;
/// Interrupt Status Register
pub const ISR: u16 = 0x3E;
/// Transmit Configuration Register
pub const TCR: u16 = 0x40;
/// Receive Configuration Register
pub const RCR: u16 = 0x44;
/// Timer Count Register
pub const TCTR: u16 = 0x48;
/// Missed Packet Counter
pub const MPC: u16 = 0x4C;
/// 93C46 Command Register
pub const CFG_9346: u16 = 0x50;
/// Configuration Register 0
pub const CONFIG0: u16 = 0x51;
/// Configuration Register 1
pub const CONFIG1: u16 = 0x52;
/// Configuration Register 2
pub const CONFIG2: u16 = 0x53;
/// Configuration Register 3
pub const CONFIG3: u16 = 0x54;
/// Configuration Register 4
pub const CONFIG4: u16 = 0x55;
/// Configuration Register 5
pub const CONFIG5: u16 = 0x56;
/// Timer Interrupt
pub const TIMERINT: u16 = 0x58;
/// Multiple Interrupt Select
pub const MULINT: u16 = 0x5C;
/// PHY Access Register
pub const PHYAR: u16 = 0x60;
/// TBI Control and Status Register
pub const TBICSR: u16 = 0x64;
/// PHY Status Register
pub const PHYSTATUS: u16 = 0x6C;
/// Rx Max Size
pub const RMS: u16 = 0xDA;
/// C+ Command Register
pub const CPCMD: u16 = 0xE0;
/// Receive Descriptor Start Address (low)
pub const RDSAR_LO: u16 = 0xE4;
/// Receive Descriptor Start Address (high)
pub const RDSAR_HI: u16 = 0xE8;
/// Early Transmit Threshold
pub const ETTHR: u16 = 0xEC;

// Command Register bits
/// Reset
pub const CMD_RST: u8 = 0x10;
/// Receiver Enable
pub const CMD_RE: u8 = 8;
/// Transmitter Enable
pub const CMD_TE: u8 = 4;

// Transmit Priority Polling bits
/// Normal Priority Queue polling
pub const TPPOLL_NPQ: u8 = 0x40;
/// High Priority Queue polling
pub const TPPOLL_HPQ: u8 = 0x80;

// Interrupt bits
/// Receive OK
pub const INT_ROK: u16 = 1;
/// Receive Error
pub const INT_RER: u16 = 2;
/// Transmit OK
pub const INT_TOK: u16 = 4;
/// Transmit Error
pub const INT_TER: u16 = 8;
/// Rx Descriptor Unavailable
pub const INT_RDU: u16 = 0x10;
/// Link Change
pub const INT_LINKCHG: u16 = 0x20;
/// Rx FIFO Overflow
pub const INT_FOVW: u16 = 0x40;
/// Tx Descriptor Unavailable
pub const INT_TDU: u16 = 0x80;
/// Software Interrupt
pub const INT_SWINT: u16 = 0x100;
/// Time Out
pub const INT_TIMEOUT: u16 = 0x4000;
/// System Error
pub const INT_SERR: u16 = 0x8000;

// 93C46 Command Register
/// Lock configuration registers
pub const CFG_9346_LOCK: u8 = 0x00;
/// Unlock configuration registers
pub const CFG_9346_UNLOCK: u8 = 0xC0;

// Receive Configuration Register bits
/// Accept All Packets
pub const RCR_AAP: u32 = 1;
/// Accept Physical Match
pub const RCR_APM: u32 = 2;
/// Accept Multicast
pub const RCR_AM: u32 = 4;
/// Accept Broadcast
pub const RCR_AB: u32 = 8;
/// Accept Runt
pub const RCR_AR: u32 = 0x10;
/// Accept Error
pub const RCR_AER: u32 = 0x20;
/// Wrap (for RTL8139 compatibility)
pub const RCR_WRAP: u32 = 0x80;
/// Max DMA Burst Size (unlimited)
pub const RCR_MXDMA_UNLIMITED: u32 = 0x700;
/// Rx FIFO Threshold (no threshold)
pub const RCR_RXFTH_NONE: u32 = 0xE000;
/// Rx FIFO Threshold (64 bytes)
pub const RCR_RXFTH_64: u32 = 0x4000;
/// Multiple Early Interrupt
pub const RCR_MERINT: u32 = 0x1000000;

// Transmit Configuration Register bits
/// Max DMA Burst Size (unlimited)
pub const TCR_MXDMA_UNLIMITED: u32 = 0x700;
/// Inter-frame Gap (normal)
pub const TCR_IFG_NORMAL: u32 = 0x3000000;
/// Loopback mode
pub const TCR_LOOPBACK: u32 = 0x60000;

} // verus!
