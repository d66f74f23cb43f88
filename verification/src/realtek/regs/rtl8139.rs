//! RTL8139 register offsets
use vstd::prelude::*;

verus! {

/// MAC address
pub const IDR0: u16 = 0x00;
/// MAC address (continued)
pub const IDR4: u16 = 0x04;
/// Transmit Status Descriptor 0
pub const TSD0: u16 = 0x10;
/// Transmit Status Descriptor 1
pub const TSD1: u16 = 0x14;
/// Transmit Status Descriptor 2
pub const TSD2: u16 = 0x18;
/// Transmit Status Descriptor 3
pub const TSD3: u16 = 0x1C;
/// Transmit Start Address Descriptor 0
pub const TSAD0: u16 = 0x20;
/// Transmit Start Address Descriptor 1
pub const TSAD1: u16 = 0x24;
/// Transmit Start Address Descriptor 2
pub const TSAD2: u16 = 0x28;
/// Transmit Start Address Descriptor 3
pub const TSAD3: u16 = 0x2C;
/// Receive Buffer Start Address
pub const RBSTART: u16 = 0x30;
/// Command Register
pub const CR: u16 = 0x37;
/// Current Address of Packet Read
pub const CAPR: u16 = 0x38;
/// Current Buffer Address
pub const CBR: u16 = 0x3A;
/// Interrupt Mask Register
pub const IMR: u16 = 0x3C;
/// Interrupt Status Register
pub const ISR: u16 = 0x3E;
/// Transmit Configuration Register
pub const TCR: u16 = 0x40;
/// Receive Configuration Register
pub const RCR: u16 = 0x44;
/// Timer Count Register
pub const TCTR: u16 = 0x48;
/// Missed Packet Counter
pub const MPC: u16 = 0x4C;
/// Configuration Register 1
pub const CONFIG1: u16 = 0x52;
/// Configuration Register 4
pub const CONFIG4: u16 = 0x5A;
/// Multiple Interrupt Select
pub const MULINT: u16 = 0x5C;

// Command Register bits
/// Reset
pub const CR_RST: u8 = 0x10;
/// Receiver Enable
pub const CR_RE: u8 = 8;
/// Transmitter Enable
pub const CR_TE: u8 = 4;
/// Rx Buffer Empty
pub const CR_BUFE: u8 = 1;

// Interrupt Status/Mask Register bits
/// Receive OK
pub const INT_ROK: u16 = 1;
/// Receive Error
pub const INT_RER: u16 = 2;
/// Transmit OK
pub const INT_TOK: u16 = 4;
/// Transmit Error
pub const INT_TER: u16 = 8;
/// Rx Buffer Overflow
pub const INT_RXOVW: u16 = 0x10;
/// Packet Underrun / Link Change
pub const INT_PUN: u16 = 0x20;
/// Rx FIFO Overflow
pub const INT_FOVW: u16 = 0x40;
/// Cable Length Change
pub const INT_LENCHG: u16 = 0x2000;
/// Time Out
pub const INT_TIMEOUT: u16 = 0x4000;
/// System Error
pub const INT_SERR: u16 = 0x8000;

// Transmit Status Register bits
/// DMA operation completed
pub const TSD_OWN: u32 = 0x2000;
/// Transmit FIFO underrun
pub const TSD_TUN: u32 = 0x4000;
/// Transmit OK
pub const TSD_TOK: u32 = 0x8000;
/// CD Heart Beat
pub const TSD_CDH: u32 = 0x10000000;
/// Out of Window Collision
pub const TSD_OWC: u32 = 0x20000000;
/// Transmit Abort
pub const TSD_TABT: u32 = 0x40000000;
/// Carrier Sense Lost
pub const TSD_CRS: u32 = 0x80000000;

// Receive Configuration Register bits
/// Accept All Packets
pub const RCR_AAP: u32 = 1;
/// Accept Physical Match
pub const RCR_APM: u32 = 2;
/// Accept Multicast
pub const RCR_AM: u32 = 4;
/// Accept Broadcast
pub const RCR_AB: u32 = 8;
/// Accept Runt
pub const RCR_AR: u32 = 0x10;
/// Accept Error
pub const RCR_AER: u32 = 0x20;
/// Wrap
pub const RCR_WRAP: u32 = 0x80;
/// Max DMA Burst Size shift
pub const RCR_MXDMA_SHIFT: u32 = 8;
/// RX Buffer Length shift
pub const RCR_RBLEN_SHIFT: u32 = 11;
/// RX FIFO Threshold shift
pub const RCR_RXFTH_SHIFT: u32 = 13;

// Transmit Configuration Register bits
/// Max DMA Burst Size shift
pub const TCR_MXDMA_SHIFT: u32 = 8;
/// Inter-frame Gap shift
pub const TCR_IFG_SHIFT: u32 = 24;

// Receive Status bits (in buffer header)
/// Receive OK
pub const RX_ROK: u16 = 1;
/// Frame Alignment Error
pub const RX_FAE: u16 = 2;
/// CRC Error
pub const RX_CRC: u16 = 4;
/// Long Packet
pub const RX_LONG: u16 = 8;
/// Runt Packet
pub const RX_RUNT: u16 = 0x10;
/// Invalid Symbol Error
pub const RX_ISE: u16 = 0x20;
/// Broadcast Address Received
pub const RX_BAR: u16 = 0x2000;
/// Physical Address Matched
pub const RX_PAM: u16 = 0x4000;
/// Multicast Address Received
pub const RX_MAR: u16 = 0x8000;

} // verus!
