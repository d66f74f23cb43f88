//! GMAC register offsets and bit definitions, and the values written by
//! read-modify-write register updates.
use vstd::prelude::*;

use crate::bits::{lemma_u32_clear_bits, lemma_u32_modify, lemma_u32_set_bits};

verus! {

/// MAC Configuration Register offsets (Base + 0x0000)
pub const MAC_CONFIGURATION: usize = 0x0000;
pub const MAC_FRAME_FILTER: usize = 0x0004;
pub const MAC_HASH_TABLE_HIGH: usize = 0x0008;
pub const MAC_HASH_TABLE_LOW: usize = 0x000C;
pub const MAC_GMII_ADDRESS: usize = 0x0010;
pub const MAC_GMII_DATA: usize = 0x0014;
pub const MAC_FLOW_CONTROL: usize = 0x0018;
pub const MAC_VLAN_TAG: usize = 0x001C;
pub const MAC_VERSION: usize = 0x0020;
pub const MAC_DEBUG: usize = 0x0024;
pub const MAC_INTERRUPT_STATUS: usize = 0x0038;
pub const MAC_INTERRUPT_MASK: usize = 0x003C;
pub const MAC_ADDRESS0_HIGH: usize = 0x0040;
pub const MAC_ADDRESS0_LOW: usize = 0x0044;

/// DMA Register offsets (Base + 0x1000)
pub const DMA_BUS_MODE: usize = 0x1000;
pub const DMA_TX_POLL_DEMAND: usize = 0x1004;
pub const DMA_RX_POLL_DEMAND: usize = 0x1008;
pub const DMA_RX_DESC_LIST_ADDR: usize = 0x100C;
pub const DMA_TX_DESC_LIST_ADDR: usize = 0x1010;
pub const DMA_STATUS: usize = 0x1014;
pub const DMA_OPERATION_MODE: usize = 0x1018;
pub const DMA_INTERRUPT_ENABLE: usize = 0x101C;
pub const DMA_MISSED_FRAME_COUNTER: usize = 0x1020;
pub const DMA_CURRENT_HOST_TX_DESC: usize = 0x1048;
pub const DMA_CURRENT_HOST_RX_DESC: usize = 0x104C;
pub const DMA_CURRENT_HOST_TX_BUFFER: usize = 0x1050;
pub const DMA_CURRENT_HOST_RX_BUFFER: usize = 0x1054;

/// MAC_CONFIGURATION register bit definitions
/// Receiver Enable
pub const MAC_CONFIG_RE: u32 = 4;
/// Transmitter Enable
pub const MAC_CONFIG_TE: u32 = 8;
/// Deferral Check
pub const MAC_CONFIG_DC: u32 = 0x10;
/// Back-Off Limit: 10
pub const MAC_CONFIG_BL_10: u32 = 0;
/// Automatic Pad/CRC Stripping
pub const MAC_CONFIG_ACS: u32 = 0x80;
/// Disable Retry
pub const MAC_CONFIG_DR: u32 = 0x200;
/// Checksum Offload
pub const MAC_CONFIG_IPC: u32 = 0x400;
/// Duplex Mode (1=Full, 0=Half)
pub const MAC_CONFIG_DM: u32 = 0x800;
/// Loopback Mode
pub const MAC_CONFIG_LM: u32 = 0x1000;
/// Disable Receive Own
pub const MAC_CONFIG_DO: u32 = 0x2000;
/// Speed (1=100Mbps, 0=10Mbps)
pub const MAC_CONFIG_FES: u32 = 0x4000;
/// Port Select (1=MII, 0=GMII)
pub const MAC_CONFIG_PS: u32 = 0x8000;
/// Disable Carrier Sense
pub const MAC_CONFIG_DCRS: u32 = 0x10000;
/// Inter-Frame Gap: 96 bit times
pub const MAC_CONFIG_IFG_96: u32 = 0;
/// Jumbo Frame Enable
pub const MAC_CONFIG_JE: u32 = 0x100000;
/// Jabber Disable
pub const MAC_CONFIG_JD: u32 = 0x400000;
/// Watchdog Disable
pub const MAC_CONFIG_WD: u32 = 0x800000;
/// Transmit Configuration in RGMII
pub const MAC_CONFIG_TC: u32 = 0x1000000;
/// CRC Stripping for Type frames
pub const MAC_CONFIG_CST: u32 = 0x2000000;

/// MAC_FRAME_FILTER register bit definitions
/// Promiscuous Mode
pub const MAC_FILTER_PR: u32 = 1;
/// Hash Unicast
pub const MAC_FILTER_HUC: u32 = 2;
/// Hash Multicast
pub const MAC_FILTER_HMC: u32 = 4;
/// DA Inverse Filtering
pub const MAC_FILTER_DAIF: u32 = 8;
/// Pass All Multicast
pub const MAC_FILTER_PM: u32 = 0x10;
/// Disable Broadcast Frames
pub const MAC_FILTER_DBF: u32 = 0x20;
/// Pass Control Frames: None
pub const MAC_FILTER_PCF_NONE: u32 = 0;
/// SA Inverse Filtering
pub const MAC_FILTER_SAIF: u32 = 0x100;
/// Source Address Filter
pub const MAC_FILTER_SAF: u32 = 0x200;
/// Hash or Perfect Filter
pub const MAC_FILTER_HPF: u32 = 0x400;
/// Receive All
pub const MAC_FILTER_RA: u32 = 0x80000000;

/// DMA_BUS_MODE register bit definitions
/// Software Reset
pub const DMA_BUS_MODE_SWR: u32 = 1;
/// DMA Arbitration (0=RR, 1=TX>RX)
pub const DMA_BUS_MODE_DA: u32 = 2;
/// Descriptor Skip Length
pub const DMA_BUS_MODE_DSL_MASK: u32 = 0x7C;
/// Alternate Descriptor Size
pub const DMA_BUS_MODE_ATDS: u32 = 0x80;
/// Programmable Burst Length: 1
pub const DMA_BUS_MODE_PBL_1: u32 = 0x100;
pub const DMA_BUS_MODE_PBL_2: u32 = 0x200;
pub const DMA_BUS_MODE_PBL_4: u32 = 0x400;
pub const DMA_BUS_MODE_PBL_8: u32 = 0x800;
pub const DMA_BUS_MODE_PBL_16: u32 = 0x1000;
pub const DMA_BUS_MODE_PBL_32: u32 = 0x2000;
/// Fixed Burst
pub const DMA_BUS_MODE_FB: u32 = 0x10000;
/// RX DMA PBL
pub const DMA_BUS_MODE_RPBL_1: u32 = 0x20000;
/// Use Separate PBL
pub const DMA_BUS_MODE_USP: u32 = 0x800000;
/// 8x PBL Mode
pub const DMA_BUS_MODE_8XPBL: u32 = 0x1000000;
/// Address-Aligned Beats
pub const DMA_BUS_MODE_AAL: u32 = 0x2000000;
/// Mixed Burst
pub const DMA_BUS_MODE_MB: u32 = 0x4000000;
/// Transmit Priority
pub const DMA_BUS_MODE_TXPR: u32 = 0x8000000;

/// DMA_STATUS register bit definitions
/// Transmit Interrupt
pub const DMA_STATUS_TI: u32 = 1;
/// Transmit Process Stopped
pub const DMA_STATUS_TPS: u32 = 2;
/// Transmit Buffer Unavailable
pub const DMA_STATUS_TU: u32 = 4;
/// Transmit Jabber Timeout
pub const DMA_STATUS_TJT: u32 = 8;
/// Receive Overflow
pub const DMA_STATUS_OVF: u32 = 0x10;
/// Transmit Underflow
pub const DMA_STATUS_UNF: u32 = 0x20;
/// Receive Interrupt
pub const DMA_STATUS_RI: u32 = 0x40;
/// Receive Buffer Unavailable
pub const DMA_STATUS_RU: u32 = 0x80;
/// Receive Process Stopped
pub const DMA_STATUS_RPS: u32 = 0x100;
/// Receive Watchdog Timeout
pub const DMA_STATUS_RWT: u32 = 0x200;
/// Early Transmit Interrupt
pub const DMA_STATUS_ETI: u32 = 0x400;
/// Fatal Bus Error Interrupt
pub const DMA_STATUS_FBI: u32 = 0x2000;
/// Early Receive Interrupt
pub const DMA_STATUS_ERI: u32 = 0x4000;
/// Abnormal Interrupt Summary
pub const DMA_STATUS_AIS: u32 = 0x8000;
/// Normal Interrupt Summary
pub const DMA_STATUS_NIS: u32 = 0x10000;
/// Receive Process State
pub const DMA_STATUS_RS_SHIFT: u32 = 17;
/// Transmit Process State
pub const DMA_STATUS_TS_SHIFT: u32 = 20;
/// Error Bits
pub const DMA_STATUS_EB_SHIFT: u32 = 23;

/// DMA_OPERATION_MODE register bit definitions
/// Start/Stop Receive
pub const DMA_OP_MODE_SR: u32 = 2;
/// Operate on Second Frame
pub const DMA_OP_MODE_OSF: u32 = 4;
/// Receive Threshold Control: 64
pub const DMA_OP_MODE_RTC_64: u32 = 0;
pub const DMA_OP_MODE_RTC_32: u32 = 8;
pub const DMA_OP_MODE_RTC_96: u32 = 0x10;
pub const DMA_OP_MODE_RTC_128: u32 = 0x18;
/// Forward Undersized Good Frames
pub const DMA_OP_MODE_FUF: u32 = 0x40;
/// Forward Error Frames
pub const DMA_OP_MODE_FEF: u32 = 0x80;
/// Start/Stop Transmission
pub const DMA_OP_MODE_ST: u32 = 0x2000;
/// Transmit Threshold Control: 64
pub const DMA_OP_MODE_TTC_64: u32 = 0;
pub const DMA_OP_MODE_TTC_128: u32 = 0x4000;
pub const DMA_OP_MODE_TTC_192: u32 = 0x8000;
pub const DMA_OP_MODE_TTC_256: u32 = 0xC000;
pub const DMA_OP_MODE_TTC_40: u32 = 0x10000;
pub const DMA_OP_MODE_TTC_32: u32 = 0x14000;
pub const DMA_OP_MODE_TTC_24: u32 = 0x18000;
pub const DMA_OP_MODE_TTC_16: u32 = 0x1C000;
/// Flush Transmit FIFO
pub const DMA_OP_MODE_FTF: u32 = 0x100000;
/// Transmit Store and Forward
pub const DMA_OP_MODE_TSF: u32 = 0x200000;
/// Disable Flushing of Received Frames
pub const DMA_OP_MODE_DFF: u32 = 0x1000000;
/// Receive Store and Forward
pub const DMA_OP_MODE_RSF: u32 = 0x2000000;
/// Disable Dropping of TCP/IP Checksum Error Frames
pub const DMA_OP_MODE_DT: u32 = 0x4000000;

/// DMA_INTERRUPT_ENABLE register bit definitions
/// Transmit Interrupt Enable
pub const DMA_INT_TX_COMPLETED: u32 = 1;
/// Transmit Stopped Enable
pub const DMA_INT_TX_STOPPED: u32 = 2;
/// Transmit Buffer Unavailable Enable
pub const DMA_INT_TX_BUF_UNAVAIL: u32 = 4;
/// Transmit Jabber Timeout Enable
pub const DMA_INT_TX_JABBER: u32 = 8;
/// Receive Overflow Enable
pub const DMA_INT_RX_OVERFLOW: u32 = 0x10;
/// Transmit Underflow Enable
pub const DMA_INT_TX_UNDERFLOW: u32 = 0x20;
/// Receive Interrupt Enable
pub const DMA_INT_RX_COMPLETED: u32 = 0x40;
/// Receive Buffer Unavailable Enable
pub const DMA_INT_RX_BUF_UNAVAIL: u32 = 0x80;
/// Receive Stopped Enable
pub const DMA_INT_RX_STOPPED: u32 = 0x100;
/// Receive Watchdog Timeout Enable
pub const DMA_INT_RX_WATCHDOG: u32 = 0x200;
/// Early Transmit Interrupt Enable
pub const DMA_INT_EARLY_TX: u32 = 0x400;
/// Fatal Bus Error Enable
pub const DMA_INT_FATAL_BUS_ERROR: u32 = 0x2000;
/// Early Receive Interrupt Enable
pub const DMA_INT_EARLY_RX: u32 = 0x4000;
/// Abnormal Interrupt Summary Enable
pub const DMA_INT_ABNORMAL: u32 = 0x8000;
/// Normal Interrupt Summary Enable
pub const DMA_INT_NORMAL: u32 = 0x10000;


/// A 32-bit register write: the value to store at an absolute address.
#[derive(Debug, Clone, Copy, PartialEq, Eq, Structural)]
pub struct RegWrite {
    pub addr: usize,
    pub value: u32,
}

/// The register window at `base`, before its `k`-th access (accesses are
/// counted from 0 in the order in which the driver makes them).
pub closed spec fn gmac_regs_at(base: usize, k: int) -> GmacRegs {
    GmacRegs { base, accesses: Ghost(k) }
}

/// The window before its `k`-th access has the base it was made with.
pub broadcast proof fn lemma_gmac_regs_at_base(base: usize, k: int)
    ensures
        #[trigger] gmac_regs_at(base, k).base == base,
{
}

/// The window before its `k`-th access has the count it was made with.
pub broadcast proof fn lemma_gmac_regs_at_step(base: usize, k: int)
    ensures
        #[trigger] gmac_regs_at(base, k).step() == k,
{
}

/// A window is the window at its base before its access number `step()`.
pub broadcast proof fn lemma_gmac_regs_is_at(r: GmacRegs)
    ensures
        #[trigger] gmac_regs_at(r.base, r.step()) == r,
{
}

pub broadcast group group_gmac_regs {
    lemma_gmac_regs_at_base,
    lemma_gmac_regs_at_step,
    lemma_gmac_regs_is_at,
}

/// Register accessor: the base address of the GMAC register window and
/// (for the proofs) the number of accesses made through it so far.
#[derive(Clone, Copy)]
pub struct GmacRegs {
    pub base: usize,
    pub accesses: Ghost<int>,
}

impl GmacRegs {
    /// The number of accesses made through the window so far.
    pub closed spec fn step(&self) -> int {
        self.accesses@
    }

    /// Create a new register accessor.
    pub fn new(base: usize) -> (r: Self)
        ensures
            r.base == base,
            r == gmac_regs_at(base, 0),
    {
        Self { base, accesses: Ghost(0) }
    }

    /// The window at `base` before its access number `k` (to carry the count
    /// of accesses from one step of the driver to the next).
    pub fn at_access(base: usize, k: Ghost<int>) -> (r: Self)
        ensures
            r == gmac_regs_at(base, k@),
    {
        Self { base, accesses: k }
    }

    /// The window after one more access.
    pub fn next(&self) -> (r: Self)
        ensures
            r == gmac_regs_at(self.base, self.step() + 1),
    {
        Self { base: self.base, accesses: Ghost(self.accesses@ + 1) }
    }

    /// Absolute address of the register at `offset`.
    pub fn reg_addr(&self, offset: usize) -> (a: usize)
        requires
            self.base + offset <= usize::MAX,
        ensures
            a == self.base + offset,
    {
        self.base + offset
    }

    /// Set the bits of `mask` in the register at `offset` whose current
    /// value is `current` (read-modify-write): the write to perform.
    pub fn set_bits(&self, offset: usize, current: u32, mask: u32) -> (w: RegWrite)
        requires
            self.base + offset <= usize::MAX,
        ensures
            w.addr == self.base + offset,
            w.value == current | mask,
            w.value & mask == mask,
            w.value & !mask == current & !mask,
    {
        proof {
            lemma_u32_set_bits(current, mask);
        }
        RegWrite { addr: self.reg_addr(offset), value: current | mask }
    }

    /// Clear the bits of `mask` in the register at `offset` whose current
    /// value is `current` (read-modify-write): the write to perform.
    pub fn clear_bits(&self, offset: usize, current: u32, mask: u32) -> (w: RegWrite)
        requires
            self.base + offset <= usize::MAX,
        ensures
            w.addr == self.base + offset,
            w.value == current & !mask,
            w.value & mask == 0,
            w.value & !mask == current & !mask,
    {
        proof {
            lemma_u32_clear_bits(current, mask);
        }
        RegWrite { addr: self.reg_addr(offset), value: current & !mask }
    }

    /// Clear the bits of `clear_mask`, then set those of `set_mask`, in the
    /// register at `offset` whose current value is `current`: the write to
    /// perform.
    pub fn modify_reg(&self, offset: usize, current: u32, clear_mask: u32, set_mask: u32) -> (w: RegWrite)
        requires
            self.base + offset <= usize::MAX,
        ensures
            w.addr == self.base + offset,
            w.value == (current & !clear_mask) | set_mask,
            w.value & set_mask == set_mask,
            w.value & (clear_mask & !set_mask) == 0,
            w.value & !(clear_mask | set_mask) == current & !(clear_mask | set_mask),
    {
        proof {
            lemma_u32_modify(current, clear_mask, set_mask);
        }
        RegWrite { addr: self.reg_addr(offset), value: (current & !clear_mask) | set_mask }
    }

    /// Read a register and write the value back, which clears the
    /// write-one-to-clear status bits that were set: the write to perform
    /// for the value `current` that was read (and is returned to the caller).
    pub fn read_and_clear(&self, offset: usize, current: u32) -> (w: RegWrite)
        requires
            self.base + offset <= usize::MAX,
        ensures
            w.addr == self.base + offset,
            w.value == current,
    {
        RegWrite { addr: self.reg_addr(offset), value: current }
    }
}

/// Read-modify-write updates of a register value `v` (the values that
/// `set_bits` and `clear_bits` write): setting (or clearing) the same bits
/// twice is doing it once, and clearing bits that were just set, or setting
/// bits that were just cleared, is the same as doing the second update
/// alone.
pub proof fn lemma_read_modify_write(v: u32, clear: u32, set: u32)
    by (bit_vector)
    ensures
        (v | set) | set == v | set,
        (v & !clear) & !clear == v & !clear,
        (v | clear) & !clear == v & !clear,
        (v & !set) | set == v | set,
{
}

} // verus!
