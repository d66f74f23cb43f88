//! RTL8169 register definitions and register addressing.
pub mod chip_cmd;
pub mod cfg9346;
pub mod rx_mode;
pub mod phy_status;
pub mod intr_status;

use vstd::prelude::*;

verus! {

/// RTL8169 register offsets.
#[derive(Debug, Clone, Copy, PartialEq, Eq, Structural)]
pub enum Reg {
    // MAC address registers
    Mac0,
    Mac4,
    // Multicast filter
    Mar0,
    Mar4,
    // Descriptor addresses
    TxDescStartAddrLow,
    TxDescStartAddrHigh,
    TxHDescStartAddrLow,
    TxHDescStartAddrHigh,
    // Flash memory interface
    Flash,
    // Early Rx Status
    ErSr,
    // Command register
    ChipCmd,
    // TX poll
    TxPoll,
    // Interrupt mask/status
    IntrMask,
    IntrStatus,
    // TX/RX configuration
    TxConfig,
    RxConfig,
    // RX missed packet counter
    RxMissed,
    // 93C46 command register
    Cfg9346,
    // Configuration registers
    Config0,
    Config1,
    Config2,
    Config3,
    Config4,
    Config5,
    // Multiple interrupt select
    MultiIntr,
    // PHY access register
    PhyAr,
    // TBI control and status
    TbiCsr,
    TbiAnar,
    TbiLpar,
    // PHY status
    PhyStatus,
    // RX maximum size
    RxMaxSize,
    // C+ command
    CPlusCmd,
    // RX descriptor start address
    RxDescStartAddrLow,
    RxDescStartAddrHigh,
    // Early TX threshold
    EarlyTxThres,
    // Function event/mask/state
    FuncEvent,
    FuncEventMask,
    FuncPresetState,
    FuncForceEvent,
}

/// Offset of a register in the register window.
pub open spec fn reg_offset(reg: Reg) -> u32 {
    match reg {
        Reg::Mac0 => 0x00,
        Reg::Mac4 => 0x04,
        Reg::Mar0 => 0x08,
        Reg::Mar4 => 0x0C,
        Reg::TxDescStartAddrLow => 0x20,
        Reg::TxDescStartAddrHigh => 0x24,
        Reg::TxHDescStartAddrLow => 0x28,
        Reg::TxHDescStartAddrHigh => 0x2C,
        Reg::Flash => 0x30,
        Reg::ErSr => 0x36,
        Reg::ChipCmd => 0x37,
        Reg::TxPoll => 0x38,
        Reg::IntrMask => 0x3C,
        Reg::IntrStatus => 0x3E,
        Reg::TxConfig => 0x40,
        Reg::RxConfig => 0x44,
        Reg::RxMissed => 0x4C,
        Reg::Cfg9346 => 0x50,
        Reg::Config0 => 0x51,
        Reg::Config1 => 0x52,
        Reg::Config2 => 0x53,
        Reg::Config3 => 0x54,
        Reg::Config4 => 0x55,
        Reg::Config5 => 0x56,
        Reg::MultiIntr => 0x5C,
        Reg::PhyAr => 0x60,
        Reg::TbiCsr => 0x64,
        Reg::TbiAnar => 0x68,
        Reg::TbiLpar => 0x6A,
        Reg::PhyStatus => 0x6C,
        Reg::RxMaxSize => 0xDA,
        Reg::CPlusCmd => 0xE0,
        Reg::RxDescStartAddrLow => 0xE4,
        Reg::RxDescStartAddrHigh => 0xE8,
        Reg::EarlyTxThres => 0xEC,
        Reg::FuncEvent => 0xF0,
        Reg::FuncEventMask => 0xF4,
        Reg::FuncPresetState => 0xF8,
        Reg::FuncForceEvent => 0xFC,
    }
}

impl Reg {
    /// Offset of the register in the register window.
    pub fn offset(self) -> (off: u32)
        ensures
            off == reg_offset(self),
            off < 0x100,
    {
        match self {
            Reg::Mac0 => 0x00,
            Reg::Mac4 => 0x04,
            Reg::Mar0 => 0x08,
            Reg::Mar4 => 0x0C,
            Reg::TxDescStartAddrLow => 0x20,
            Reg::TxDescStartAddrHigh => 0x24,
            Reg::TxHDescStartAddrLow => 0x28,
            Reg::TxHDescStartAddrHigh => 0x2C,
            Reg::Flash => 0x30,
            Reg::ErSr => 0x36,
            Reg::ChipCmd => 0x37,
            Reg::TxPoll => 0x38,
            Reg::IntrMask => 0x3C,
            Reg::IntrStatus => 0x3E,
            Reg::TxConfig => 0x40,
            Reg::RxConfig => 0x44,
            Reg::RxMissed => 0x4C,
            Reg::Cfg9346 => 0x50,
            Reg::Config0 => 0x51,
            Reg::Config1 => 0x52,
            Reg::Config2 => 0x53,
            Reg::Config3 => 0x54,
            Reg::Config4 => 0x55,
            Reg::Config5 => 0x56,
            Reg::MultiIntr => 0x5C,
            Reg::PhyAr => 0x60,
            Reg::TbiCsr => 0x64,
            Reg::TbiAnar => 0x68,
            Reg::TbiLpar => 0x6A,
            Reg::PhyStatus => 0x6C,
            Reg::RxMaxSize => 0xDA,
            Reg::CPlusCmd => 0xE0,
            Reg::RxDescStartAddrLow => 0xE4,
            Reg::RxDescStartAddrHigh => 0xE8,
            Reg::EarlyTxThres => 0xEC,
            Reg::FuncEvent => 0xF0,
            Reg::FuncEventMask => 0xF4,
            Reg::FuncPresetState => 0xF8,
            Reg::FuncForceEvent => 0xFC,
        }
    }
}

/// RX config register shifts
pub const RX_CFG_FIFO_SHIFT: u32 = 13;
pub const RX_CFG_DMA_SHIFT: u32 = 8;

/// TX config register shifts
pub const TX_INTERFRAME_GAP_SHIFT: u32 = 24;
pub const TX_DMA_SHIFT: u32 = 8;

/// DMA burst size: 1024 bytes
pub const RX_DMA_BURST: u32 = 6;
pub const TX_DMA_BURST: u32 = 6;

/// FIFO threshold: none
pub const RX_FIFO_THRESH: u32 = 7;
pub const TX_FIFO_THRESH: u32 = 256;

/// Early TX threshold
pub const EARLY_TX_THLD: u8 = 0x3F;

/// Inter-frame gap
pub const INTER_FRAME_GAP: u32 = 0x03;

/// RX packet max size: 2KB
pub const RX_PACKET_MAX_SIZE: u16 = 0x0800;

/// RTL8169 chip information.
#[derive(Debug, Clone, Copy)]
pub struct ChipInfo {
    pub name: &'static str,
    pub version: u8,
    pub rx_config_mask: u32,
}

/// Known RTL8169 chip versions.
pub open spec fn chip_version_table() -> Seq<ChipInfo> {
    seq![
        ChipInfo { name: "RTL-8169", version: 0x00, rx_config_mask: 0xff7e1880 },
        ChipInfo { name: "RTL-8169", version: 0x04, rx_config_mask: 0xff7e1880 },
        ChipInfo { name: "RTL-8169s/8110s", version: 0x02, rx_config_mask: 0xff7e1880 },
        ChipInfo { name: "RTL-8169s/8110s", version: 0x04, rx_config_mask: 0xff7e1880 },
        ChipInfo { name: "RTL-8169sb/8110sb", version: 0x10, rx_config_mask: 0xff7e1880 },
        ChipInfo { name: "RTL-8169sc/8110sc", version: 0x18, rx_config_mask: 0xff7e1880 },
        ChipInfo { name: "RTL-8168b/8111sb", version: 0x30, rx_config_mask: 0xff7e1880 },
        ChipInfo { name: "RTL-8168b/8111sb", version: 0x38, rx_config_mask: 0xff7e1880 },
        ChipInfo { name: "RTL-8168c/8111c", version: 0x3c, rx_config_mask: 0xff7e1880 },
        ChipInfo { name: "RTL-8168d/8111d", version: 0x28, rx_config_mask: 0xff7e1880 },
        ChipInfo { name: "RTL-8168evl/8111evl", version: 0x2e, rx_config_mask: 0xff7e1880 },
        ChipInfo { name: "RTL-8168/8111g", version: 0x4c, rx_config_mask: 0xff7e1880 },
        ChipInfo { name: "RTL-8101e", version: 0x34, rx_config_mask: 0xff7e1880 },
        ChipInfo { name: "RTL-8100e", version: 0x32, rx_config_mask: 0xff7e1880 },
        ChipInfo { name: "RTL-8168h/8111h", version: 0x54, rx_config_mask: 0xff7e1880 }
    ]
}

/// Known RTL8169 chip versions, in table order.
pub fn chip_versions() -> (v: Vec<ChipInfo>)
    ensures
        v@ == chip_version_table(),
{
    let mut v: Vec<ChipInfo> = Vec::new();
    v.push(ChipInfo { name: "RTL-8169", version: 0x00, rx_config_mask: 0xff7e1880 });
    v.push(ChipInfo { name: "RTL-8169", version: 0x04, rx_config_mask: 0xff7e1880 });
    v.push(ChipInfo { name: "RTL-8169s/8110s", version: 0x02, rx_config_mask: 0xff7e1880 });
    v.push(ChipInfo { name: "RTL-8169s/8110s", version: 0x04, rx_config_mask: 0xff7e1880 });
    v.push(ChipInfo { name: "RTL-8169sb/8110sb", version: 0x10, rx_config_mask: 0xff7e1880 });
    v.push(ChipInfo { name: "RTL-8169sc/8110sc", version: 0x18, rx_config_mask: 0xff7e1880 });
    v.push(ChipInfo { name: "RTL-8168b/8111sb", version: 0x30, rx_config_mask: 0xff7e1880 });
    v.push(ChipInfo { name: "RTL-8168b/8111sb", version: 0x38, rx_config_mask: 0xff7e1880 });
    v.push(ChipInfo { name: "RTL-8168c/8111c", version: 0x3c, rx_config_mask: 0xff7e1880 });
    v.push(ChipInfo { name: "RTL-8168d/8111d", version: 0x28, rx_config_mask: 0xff7e1880 });
    v.push(ChipInfo { name: "RTL-8168evl/8111evl", version: 0x2e, rx_config_mask: 0xff7e1880 });
    v.push(ChipInfo { name: "RTL-8168/8111g", version: 0x4c, rx_config_mask: 0xff7e1880 });
    v.push(ChipInfo { name: "RTL-8101e", version: 0x34, rx_config_mask: 0xff7e1880 });
    v.push(ChipInfo { name: "RTL-8100e", version: 0x32, rx_config_mask: 0xff7e1880 });
    v.push(ChipInfo { name: "RTL-8168h/8111h", version: 0x54, rx_config_mask: 0xff7e1880 });
    assert(v@ =~= chip_version_table());
    v
}

/// The register window at `base`, before its `k`-th access (accesses are
/// counted from 0 in the order in which the driver makes them).
pub closed spec fn regs_at(base: usize, k: int) -> Rtl8169Regs {
    Rtl8169Regs { base, accesses: Ghost(k) }
}

/// The window before its `k`-th access has the base it was made with.
pub broadcast proof fn lemma_regs_at_base(base: usize, k: int)
    ensures
        #[trigger] regs_at(base, k).base_addr() == base,
{
}

/// The window before its `k`-th access has the count it was made with.
pub broadcast proof fn lemma_regs_at_step(base: usize, k: int)
    ensures
        #[trigger] regs_at(base, k).step() == k,
{
}

/// A window is the window at its base before its access number `step()`.
pub broadcast proof fn lemma_regs_is_at(r: Rtl8169Regs)
    ensures
        #[trigger] regs_at(r.base_addr(), r.step()) == r,
{
}

pub broadcast group group_regs {
    lemma_regs_at_base,
    lemma_regs_at_step,
    lemma_regs_is_at,
}

/// MMIO register window of the controller: its base address and (for the
/// proofs) the number of accesses made through it so far.
#[derive(Clone, Copy)]
pub struct Rtl8169Regs {
    base: usize,
    accesses: Ghost<int>,
}

impl Rtl8169Regs {
    /// Base address of the register window.
    pub closed spec fn base_addr(&self) -> usize {
        self.base
    }

    /// The number of accesses made through the window so far.
    pub closed spec fn step(&self) -> int {
        self.accesses@
    }

    /// Create new register accessor.
    pub fn new(base: usize) -> (r: Self)
        ensures
            r.base_addr() == base,
            r == regs_at(base, 0),
    {
        Self { base, accesses: Ghost(0) }
    }

    /// The window at `base` before its access number `k` (to carry the count
    /// of accesses from one step of the driver to the next).
    pub fn at_access(base: usize, k: Ghost<int>) -> (r: Self)
        ensures
            r == regs_at(base, k@),
    {
        Self { base, accesses: k }
    }

    /// Base address of the register window.
    pub fn base(&self) -> (b: usize)
        ensures
            b == self.base_addr(),
    {
        self.base
    }

    /// The window after one more access.
    pub fn next(&self) -> (r: Self)
        ensures
            r == regs_at(self.base_addr(), self.step() + 1),
    {
        Self { base: self.base, accesses: Ghost(self.accesses@ + 1) }
    }

    /// Address of register `reg`.
    pub fn addr(&self, reg: Reg) -> (a: usize)
        requires
            self.base_addr() + 0x100 <= usize::MAX,
        ensures
            a == self.base_addr() + reg_offset(reg),
    {
        self.base + reg.offset() as usize
    }
}

} // verus!
