//! Descriptor format for RTL8169/8168/8111
use vstd::prelude::*;

verus! {

// Common descriptor bits
/// Ownership (1 = NIC, 0 = CPU)
pub const DESC_OWN: u32 = 0x80000000;
/// End of Ring
pub const DESC_EOR: u32 = 0x40000000;
/// First Segment
pub const DESC_FS: u32 = 0x20000000;
/// Last Segment
pub const DESC_LS: u32 = 0x10000000;

// RX Descriptor opts1 bits (aliases for common use)
pub const RX_OWN: u32 = DESC_OWN;
pub const RX_EOR: u32 = DESC_EOR;
pub const RX_FS: u32 = DESC_FS;
pub const RX_LS: u32 = DESC_LS;
/// Multicast Address Received
pub const RX_MAR: u32 = 0x4000000;
/// Physical Address Matched
pub const RX_PAM: u32 = 0x2000000;
/// Broadcast Address Received
pub const RX_BAR: u32 = 0x1000000;
/// Buffer Overflow
pub const RX_BOVF: u32 = 0x800000;
/// FIFO Overflow
pub const RX_FOVF: u32 = 0x400000;
/// Receive Watchdog Timer Expired
pub const RX_RWT: u32 = 0x200000;
/// Receive Error Summary
pub const RX_RES: u32 = 0x100000;
/// Runt Packet
pub const RX_RUNT: u32 = 0x80000;
/// CRC Error
pub const RX_CRC: u32 = 0x40000;
/// IP Checksum Failure
pub const RX_IPF: u32 = 0x10000;
/// UDP Checksum Failure
pub const RX_UDPF: u32 = 0x8000;
/// TCP Checksum Failure
pub const RX_TCPF: u32 = 0x4000;
/// Frame Length
pub const RX_LEN_MASK: u32 = 0x3FFF;

// Aliases for error checking (DESC_RX_xxx)
pub const DESC_RX_RES: u32 = RX_RES;
/// Watchdog timeout (the MAR bit stands for it)
pub const DESC_RX_RWMA: u32 = RX_MAR;
pub const DESC_RX_RWT: u32 = RX_RWT;
pub const DESC_RX_RUNT: u32 = RX_RUNT;
/// Long Packet
pub const DESC_RX_LONG: u32 = 0x20000;

// TX Descriptor opts1 bits
/// Ownership (1 = NIC, 0 = CPU)
pub const TX_OWN: u32 = 0x80000000;
/// End of Ring
pub const TX_EOR: u32 = 0x40000000;
/// First Segment
pub const TX_FS: u32 = 0x20000000;
/// Last Segment
pub const TX_LS: u32 = 0x10000000;
/// Large Send Enable
pub const TX_LGSEN: u32 = 0x8000000;
/// IP Checksum Offload
pub const TX_IPCS: u32 = 0x40000;
/// UDP Checksum Offload
pub const TX_UDPCS: u32 = 0x20000;
/// TCP Checksum Offload
pub const TX_TCPCS: u32 = 0x10000;
/// Frame Length
pub const TX_LEN_MASK: u32 = 0xFFFF;

} // verus!
