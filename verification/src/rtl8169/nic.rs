//! The RTL8169 network interface: identification and configuration of the
//! controller, and the bookkeeping of its transmit and receive rings.
use vstd::prelude::*;

use super::desc::{RxDesc, TxDesc, rx_status_ready, tx_status};
use super::regs::chip_cmd::{CMD_RESET, CMD_RX_ENB, CMD_TX_ENB};
use super::regs::rx_mode::{ACCEPT_BROADCAST, ACCEPT_MULTICAST, ACCEPT_MY_PHYS};
use super::regs::{
    chip_version_table, chip_versions, group_regs, regs_at, Reg, Rtl8169Regs, EARLY_TX_THLD, INTER_FRAME_GAP,
    RX_CFG_DMA_SHIFT, RX_CFG_FIFO_SHIFT, RX_DMA_BURST, RX_FIFO_THRESH, RX_PACKET_MAX_SIZE,
    TX_DMA_BURST, TX_DMA_SHIFT, TX_INTERFRAME_GAP_SHIFT,
};
use super::regs::cfg9346::{LOCK, UNLOCK};
use crate::calls::{call_no, CallNo};
use crate::ring::{in_flight, lemma_in_flight_bound, lemma_next_slot, lemma_reclaim_one, lemma_use_one, next_slot, ring_wf};
use crate::types::{DevError, DevResult, EthernetAddress};

verus! {

broadcast use group_regs;

/// Platform-specific kernel functions.
///
/// The platform integration layer implements it; nothing is assumed of
/// what it returns. Allocations and frees are handed the number of the call
/// (see `CallNo`), which the platform does not need to look at.
pub trait KernelFunc {
    /// Convert virtual address to physical address.
    fn virt_to_phys(addr: usize) -> usize;

    /// Allocate DMA-coherent memory (page-aligned); returns
    /// `(virtual_address, physical_address)`.
    fn dma_alloc_coherent(pages: usize, call: &CallNo) -> (usize, usize);

    /// Free DMA-coherent memory.
    fn dma_free_coherent(vaddr: usize, pages: usize, call: &CallNo);
}

/// Number of TX descriptors (small for polling mode).
pub const NUM_TX_DESC: usize = 4;
/// Number of RX descriptors.
pub const NUM_RX_DESC: usize = 16;
/// RX buffer size (at least 1536).
pub const RX_BUF_SIZE: usize = 2048;
/// TX timeout in ticks.
pub const TX_TIMEOUT_MS: usize = 6000;
/// Size of a DMA page.
pub const PAGE_SIZE: usize = 4096;
/// Size of a descriptor.
pub const DESC_SIZE: usize = 16;
/// Number of software-reset polls.
pub const RESET_POLLS: u32 = 1000;
/// Chip indices up to this one enable TX/RX before locking the
/// configuration registers, later ones after.
pub const LAST_EARLY_ENABLE_CHIP: usize = 5;

/// Call number `c` to `K` was an allocation of `pages` DMA pages that
/// returned `(vaddr, paddr)`.
pub open spec fn dma_gave<K: KernelFunc>(c: int, pages: usize, vaddr: usize, paddr: usize) -> bool {
    call_ensures(K::dma_alloc_coherent, (pages, &call_no(c)), (vaddr, paddr))
}

/// `K` translated the virtual address `vaddr` to the physical address `paddr`.
pub open spec fn phys_of<K: KernelFunc>(vaddr: usize, paddr: usize) -> bool {
    call_ensures(K::virt_to_phys, (vaddr,), paddr)
}

/// Call number `c` to `K` asked to free the `pages` DMA pages at `vaddr`.
pub open spec fn dma_freed<K: KernelFunc>(c: int, vaddr: usize, pages: usize) -> bool {
    call_ensures(K::dma_free_coherent, (vaddr, pages, &call_no(c)), ())
}

/// The receive descriptor handed to the NIC with the buffer at `paddr`.
pub open spec fn rx_armed_desc(paddr: usize, is_last: bool) -> RxDesc {
    RxDesc { status: rx_status_ready(RX_BUF_SIZE as u32, is_last), vlan_tag: 0, buf_addr_low: paddr as u32, buf_addr_high: 0 }
}

/// Slot `slot` holds a buffer that `alloc_buf` gave, and the descriptor `d`
/// is handed to the NIC with that buffer's physical address (translated by
/// `K` from the address `buf_vaddr` gives).
pub open spec fn rx_slot_armed<K: KernelFunc, B, A: Fn() -> Option<B>, V: Fn(&B) -> usize>(
    alloc_buf: &A,
    buf_vaddr: &V,
    slot: Option<B>,
    d: RxDesc,
    is_last: bool,
) -> bool {
    slot matches Some(b) && alloc_buf.ensures((), Some(b)) && exists|va: usize, pa: usize|
        #[trigger] buf_vaddr.ensures((&b,), va) && #[trigger] phys_of::<K>(va, pa) && d == rx_armed_desc(pa, is_last)
}

/// The chip version field of the TxConfig register value `tx_config`.
pub open spec fn version_of(tx_config: u32) -> u8 {
    ((((tx_config & 0x7c000000) + ((tx_config & 0x00800000) << 2u32)) as u32) >> 24u32) as u8
}

/// Index of the first known chip with this version, from `i` on.
pub open spec fn chip_index_from(table: Seq<super::regs::ChipInfo>, i: int, version: u8) -> int
    decreases table.len() - i,
{
    if i < 0 || i >= table.len() {
        0
    } else if table[i].version == version {
        i
    } else {
        chip_index_from(table, i + 1, version)
    }
}

/// Index in the chip table of the chip with this version; the first entry
/// for an unknown version.
pub open spec fn chip_index_of(version: u8) -> int {
    chip_index_from(chip_version_table(), 0, version)
}

/// The MAC address held in MAC0..MAC5: `low` the little-endian word at
/// MAC0, `high` the little-endian half-word at MAC4.
pub open spec fn mac_of(low: u32, high: u16) -> [u8; 6] {
    [
        (low & 0xFF) as u8,
        ((low >> 8u32) & 0xFF) as u8,
        ((low >> 16u32) & 0xFF) as u8,
        ((low >> 24u32) & 0xFF) as u8,
        (high & 0xFF) as u8,
        ((high >> 8u16) & 0xFF) as u8,
    ]
}

/// The receive configuration programmed: FIFO threshold, DMA burst,
/// broadcast, multicast and own-address frames, merged through the chip
/// mask with the bits currently in the register.
pub open spec fn rx_config_for(mask: u32, current: u32) -> u32 {
    let wanted = (RX_FIFO_THRESH << RX_CFG_FIFO_SHIFT) | (RX_DMA_BURST << RX_CFG_DMA_SHIFT)
        | ACCEPT_BROADCAST | ACCEPT_MULTICAST | ACCEPT_MY_PHYS;
    (wanted & mask) | (current & !mask)
}

/// The transmit configuration programmed: DMA burst and inter-frame gap.
pub open spec fn tx_config() -> u32 {
    (TX_DMA_BURST << TX_DMA_SHIFT) | (INTER_FRAME_GAP << TX_INTERFRAME_GAP_SHIFT)
}

/// A register write: the register and the value, by access width.
#[derive(Debug, Clone, Copy, PartialEq, Eq, Structural)]
pub enum RegWrite {
    Byte(Reg, u8),
    Half(Reg, u16),
    Word(Reg, u32),
}

/// `w` was performed through the write closures on the window `regs` (whose
/// value carries the number of the access).
pub open spec fn performed<W8, W16, W32>(regs: &Rtl8169Regs, write8: &W8, write16: &W16, write32: &W32, w: RegWrite) -> bool
    where W8: Fn(&Rtl8169Regs, Reg, u8), W16: Fn(&Rtl8169Regs, Reg, u16), W32: Fn(&Rtl8169Regs, Reg, u32),
{
    match w {
        RegWrite::Byte(g, x) => write8.ensures((regs, g, x), ()),
        RegWrite::Half(g, x) => write16.ensures((regs, g, x), ()),
        RegWrite::Word(g, x) => write32.ensures((regs, g, x), ()),
    }
}

/// Access `k + j` of the window at `base` was a read of `g` through `read8`
/// that found a bit of `mask` set.
pub open spec fn reg8_poll_set<R8: Fn(&Rtl8169Regs, Reg) -> u8>(read8: &R8, base: usize, k: int, j: int, g: Reg, mask: u8) -> bool {
    exists|v: u8| #[trigger] read8.ensures((&regs_at(base, k + j), g), v) && v & mask != 0
}

/// Accesses `k` to `k + n - 1` of the window at `base` were reads of `g`
/// that found a bit of `mask` set.
pub open spec fn reg8_polls_set<R8: Fn(&Rtl8169Regs, Reg) -> u8>(read8: &R8, base: usize, k: int, n: int, g: Reg, mask: u8) -> bool {
    forall|j: int| 0 <= j < n ==> #[trigger] reg8_poll_set(read8, base, k, j, g, mask)
}

/// From access `k` of the window at `base` on, the writes `ws` were
/// performed in order, with one access (the read of the receive
/// configuration) between the writes before `RX_CONFIG_WRITE` and the rest.
pub open spec fn configured_in_order<W8, W16, W32>(base: usize, k: int, write8: &W8, write16: &W16, write32: &W32, ws: Seq<RegWrite>) -> bool
    where W8: Fn(&Rtl8169Regs, Reg, u8), W16: Fn(&Rtl8169Regs, Reg, u16), W32: Fn(&Rtl8169Regs, Reg, u32),
{
    forall|j: int| 0 <= j < ws.len() ==> performed(
        &regs_at(base, if j < RX_CONFIG_WRITE { k + j } else { k + 1 + j }), write8, write16, write32, #[trigger] ws[j])
}

/// From access `k` of the window at `base` on, the controller was reset and
/// identified: the reset command, `n` polls (fewer than the budget) that
/// found the reset bit set and one that found it clear, then the chip
/// version read (giving the chip index `idx`) and the MAC address read
/// (low word, high half-word); `5 + n` accesses in all.
pub open spec fn identified<R8, R16, R32, W8>(read8: &R8, read16: &R16, read32: &R32, write8: &W8, base: usize, k: int, n: int, idx: usize, mac: [u8; 6]) -> bool
    where R8: Fn(&Rtl8169Regs, Reg) -> u8, R16: Fn(&Rtl8169Regs, Reg) -> u16,
          R32: Fn(&Rtl8169Regs, Reg) -> u32, W8: Fn(&Rtl8169Regs, Reg, u8),
{
    &&& write8.ensures((&regs_at(base, k), Reg::ChipCmd, CMD_RESET), ())
    &&& 0 <= n < RESET_POLLS
    &&& reg8_polls_set(read8, base, k + 1, n, Reg::ChipCmd, CMD_RESET)
    &&& exists|v: u8| #[trigger] read8.ensures((&regs_at(base, k + 1 + n), Reg::ChipCmd), v) && v & CMD_RESET == 0
    &&& idx < chip_version_table().len()
    &&& exists|t: u32| #[trigger] read32.ensures((&regs_at(base, k + 2 + n), Reg::TxConfig), t)
        && idx == chip_index_of(version_of(t))
    &&& exists|lo: u32, hi: u16| #[trigger] read32.ensures((&regs_at(base, k + 3 + n), Reg::Mac0), lo)
        && #[trigger] read16.ensures((&regs_at(base, k + 4 + n), Reg::Mac4), hi) && mac == mac_of(lo, hi)
}

/// A descriptor ring of `count` descriptors allocated by call number `c`
/// to `K`: `(vaddr, paddr, pages)`, both addresses non-null.
pub open spec fn ring_allocated<K: KernelFunc>(c: int, count: int, a: (usize, usize, usize)) -> bool {
    &&& a.0 != 0 && a.1 != 0
    &&& a.2 == (count * DESC_SIZE + PAGE_SIZE - 1) / (PAGE_SIZE as int)
    &&& dma_gave::<K>(c, a.2, a.0, a.1)
}

/// The allocation of a ring of `count` descriptors by call number `c` to
/// `K` failed.
pub open spec fn ring_alloc_failed<K: KernelFunc>(c: int, count: int) -> bool {
    exists|n: usize, v: usize, p: usize| #[trigger] dma_gave::<K>(c, n, v, p)
        && n == (count * DESC_SIZE + PAGE_SIZE - 1) / (PAGE_SIZE as int) && (v == 0 || p == 0)
}

/// What `prepare` hands to the rest of initialization: the register window
/// (counting the accesses made so far), the chip index, the MAC address
/// and the two ring allocations `(vaddr, paddr, pages)`.
pub struct Rtl8169Prepared {
    pub regs: Rtl8169Regs,
    pub chip_idx: usize,
    pub mac: [u8; 6],
    pub tx: (usize, usize, usize),
    pub rx: (usize, usize, usize),
}

/// Position of the receive configuration write in the configuration
/// sequence.
pub const RX_CONFIG_WRITE: usize = 7;

/// The configuration sequence: unlock the configuration registers, program
/// the ring addresses (high words zero), early transmit threshold, maximum
/// receive size, receive configuration `rx_config` and transmit
/// configuration, clear the missed packet counter, lock, mask and clear
/// interrupts; TX/RX are enabled before the lock for chips up to index
/// `LAST_EARLY_ENABLE_CHIP`, at the end for later ones.
pub open spec fn config_writes(chip_idx: usize, tx_paddr: usize, rx_paddr: usize, rx_config: u32) -> Seq<RegWrite> {
    let enable = RegWrite::Byte(Reg::ChipCmd, CMD_TX_ENB | CMD_RX_ENB);
    let head = seq![
        RegWrite::Byte(Reg::Cfg9346, UNLOCK),
        RegWrite::Word(Reg::TxDescStartAddrLow, tx_paddr as u32),
        RegWrite::Word(Reg::TxDescStartAddrHigh, 0u32),
        RegWrite::Word(Reg::RxDescStartAddrLow, rx_paddr as u32),
        RegWrite::Word(Reg::RxDescStartAddrHigh, 0u32),
        RegWrite::Byte(Reg::EarlyTxThres, EARLY_TX_THLD),
        RegWrite::Half(Reg::RxMaxSize, RX_PACKET_MAX_SIZE),
        RegWrite::Word(Reg::RxConfig, rx_config),
        RegWrite::Word(Reg::TxConfig, tx_config()),
        RegWrite::Word(Reg::RxMissed, 0u32),
    ];
    let tail = seq![
        RegWrite::Byte(Reg::Cfg9346, LOCK),
        RegWrite::Half(Reg::IntrMask, 0u16),
        RegWrite::Half(Reg::IntrStatus, 0xFFFFu16),
    ];
    if chip_idx <= LAST_EARLY_ENABLE_CHIP {
        head.push(enable) + tail
    } else {
        head + tail.push(enable)
    }
}

/// A received frame: the buffer that holds it and its length.
pub struct RxDone<B> {
    pub buf: B,
    pub len: usize,
}

/// RTL8169 network interface controller.
pub struct Rtl8169Nic<B> {
    base_vaddr: usize,
    regs: Rtl8169Regs,
    chip_idx: usize,
    mac_addr: [u8; 6],
    tx_desc_paddr: usize,
    tx_desc_pages: usize,
    tx_buffers: Vec<Option<B>>,
    tx_head: usize,
    tx_tail: usize,
    rx_desc_paddr: usize,
    rx_desc_pages: usize,
    rx_buffers: Vec<Option<B>>,
    rx_cur: usize,
    link_up: bool,
}

impl<B> Rtl8169Nic<B> {
    /// Index of the next transmit descriptor to use.
    pub closed spec fn head(&self) -> usize {
        self.tx_head
    }

    /// Index of the next transmit descriptor to reclaim.
    pub closed spec fn tail(&self) -> usize {
        self.tx_tail
    }

    /// The buffers of the transmit descriptors.
    pub closed spec fn tx_slots(&self) -> Seq<Option<B>> {
        self.tx_buffers@
    }

    /// Index of the next receive descriptor.
    pub closed spec fn rx_index(&self) -> usize {
        self.rx_cur
    }

    /// The buffers of the receive descriptors.
    pub closed spec fn rx_slots(&self) -> Seq<Option<B>> {
        self.rx_buffers@
    }

    /// Index of the chip in the chip table.
    pub closed spec fn chip(&self) -> usize {
        self.chip_idx
    }

    /// The MAC address.
    pub closed spec fn mac(&self) -> [u8; 6] {
        self.mac_addr
    }

    /// Base address of the register window.
    pub closed spec fn base(&self) -> usize {
        self.base_vaddr
    }

    /// Link state found at initialization.
    pub closed spec fn link(&self) -> bool {
        self.link_up
    }

    /// The register window of the controller.
    pub closed spec fn window(&self) -> Rtl8169Regs {
        self.regs
    }

    /// The descriptor ring allocations:
    /// `((tx_paddr, tx_pages), (rx_paddr, rx_pages))`.
    pub closed spec fn allocations(&self) -> ((usize, usize), (usize, usize)) {
        ((self.tx_desc_paddr, self.tx_desc_pages), (self.rx_desc_paddr, self.rx_desc_pages))
    }

    /// The transmit ring holds a buffer exactly for the descriptors in
    /// flight, the receive ring has one slot per descriptor.
    pub open spec fn wf(&self) -> bool {
        &&& ring_wf(self.tx_slots(), NUM_TX_DESC as int, self.tail() as int, self.head() as int)
        &&& self.rx_slots().len() == NUM_RX_DESC
        &&& self.rx_index() < NUM_RX_DESC
    }

    /// The chip version field of a TxConfig register value.
    pub fn chip_version(tx_config: u32) -> (v: u8)
        ensures
            v == version_of(tx_config),
    {
        proof {
            assert((tx_config & 0x7c000000u32) + ((tx_config & 0x00800000u32) << 2u32) <= 0x7E00_0000u32)
                by (bit_vector);
        }
        (((tx_config & 0x7c000000) + ((tx_config & 0x00800000) << 2)) >> 24) as u8
    }

    /// Index in the chip table of the chip with this version (the first
    /// entry for an unknown version).
    pub fn chip_index(version: u8) -> (i: usize)
        ensures
            i == chip_index_of(version),
            i < chip_version_table().len(),
    {
        let chips = chip_versions();
        let mut i: usize = 0;
        while i < chips.len()
            invariant
                chips@ == chip_version_table(),
                i <= chips@.len(),
                chip_index_from(chips@, 0, version) == chip_index_from(chips@, i as int, version),
            decreases chips@.len() - i,
        {
            if chips[i].version == version {
                return i;
            }
            i = i + 1;
        }
        0
    }

    /// The MAC address held in MAC0..MAC5.
    pub fn mac_from_regs(low: u32, high: u16) -> (mac: [u8; 6])
        ensures
            mac == mac_of(low, high),
    {
        let mac = [
            (low & 0xFF) as u8,
            ((low >> 8) & 0xFF) as u8,
            ((low >> 16) & 0xFF) as u8,
            ((low >> 24) & 0xFF) as u8,
            (high & 0xFF) as u8,
            ((high >> 8) & 0xFF) as u8,
        ];
        assert(mac@ =~= mac_of(low, high)@);
        mac
    }

    /// Software reset and identification: set the reset bit and poll,
    /// 1000 times at most, for the chip to clear it; then read the chip
    /// version and the MAC address.
    pub fn reset_and_identify<R8, R16, R32, W8>(regs: &Rtl8169Regs, read8: &R8, read16: &R16, read32: &R32, write8: &W8) -> (r: DevResult<(usize, [u8; 6])>)
        where R8: Fn(&Rtl8169Regs, Reg) -> u8, R16: Fn(&Rtl8169Regs, Reg) -> u16,
              R32: Fn(&Rtl8169Regs, Reg) -> u32, W8: Fn(&Rtl8169Regs, Reg, u8),
        requires
            forall|w: &Rtl8169Regs, g: Reg| #[trigger] read8.requires((w, g)),
            forall|w: &Rtl8169Regs, g: Reg| #[trigger] read16.requires((w, g)),
            forall|w: &Rtl8169Regs, g: Reg| #[trigger] read32.requires((w, g)),
            forall|w: &Rtl8169Regs, g: Reg, x: u8| #[trigger] write8.requires((w, g, x)),
        ensures
            // Counted from the window's count: the reset command, the polls,
            // then the chip version and the MAC address read
            write8.ensures((&regs_at(regs.base_addr(), regs.step()), Reg::ChipCmd, CMD_RESET), ()),
            r matches Err(e) ==> e == DevError::BadState
                && reg8_polls_set(read8, regs.base_addr(), regs.step() + 1, RESET_POLLS as int, Reg::ChipCmd, CMD_RESET),
            r matches Ok((idx, mac)) ==> idx < chip_version_table().len() && exists|n: int, i: usize, m: [u8; 6]|
                #[trigger] identified(read8, read16, read32, write8, regs.base_addr(), regs.step(), n, i, m) && i == idx && m == mac,
    {
        let ghost b = regs.base_addr();
        let ghost k = regs.step();
        let mut w = *regs;
        // Software reset
        write8(&w, Reg::ChipCmd, CMD_RESET);
        assert(write8.ensures((&regs_at(b, k), Reg::ChipCmd, CMD_RESET), ()));
        w = w.next();
        let mut n: u32 = 0;
        loop
            invariant_except_break
                n < RESET_POLLS,
                w == regs_at(b, k + 1 + n),
                reg8_polls_set(read8, b, k + 1, n as int, Reg::ChipCmd, CMD_RESET),
            invariant
                b == regs.base_addr() && k == regs.step(),
                forall|x: &Rtl8169Regs, g: Reg| #[trigger] read8.requires((x, g)),
                write8.ensures((&regs_at(b, k), Reg::ChipCmd, CMD_RESET), ()),
            ensures
                exists|n: int| 0 <= n < RESET_POLLS
                    && #[trigger] reg8_polls_set(read8, b, k + 1, n, Reg::ChipCmd, CMD_RESET)
                    && (exists|v: u8| #[trigger] read8.ensures((&regs_at(b, k + 1 + n), Reg::ChipCmd), v) && v & CMD_RESET == 0)
                    && w == regs_at(b, k + 2 + n),
            decreases RESET_POLLS - n,
        {
            let v = read8(&w, Reg::ChipCmd);
            assert(read8.ensures((&regs_at(b, k + 1 + n), Reg::ChipCmd), v));
            w = w.next();
            if (v & CMD_RESET) == 0 {
                assert(reg8_polls_set(read8, b, k + 1, n as int, Reg::ChipCmd, CMD_RESET));
                break;
            }
            assert(reg8_poll_set(read8, b, k + 1, n as int, Reg::ChipCmd, CMD_RESET));
            n = n + 1;
            if n == RESET_POLLS {
                return Err(DevError::BadState);
            }
        }
        let ghost m = choose|m: int| 0 <= m < RESET_POLLS
            && #[trigger] reg8_polls_set(read8, b, k + 1, m, Reg::ChipCmd, CMD_RESET)
            && (exists|v: u8| #[trigger] read8.ensures((&regs_at(b, k + 1 + m), Reg::ChipCmd), v) && v & CMD_RESET == 0)
            && w == regs_at(b, k + 2 + m);
        // Chip version
        let tx_config = read32(&w, Reg::TxConfig);
        assert(read32.ensures((&regs_at(b, k + 2 + m), Reg::TxConfig), tx_config));
        w = w.next();
        let chip_idx = Self::chip_index(Self::chip_version(tx_config));
        // MAC address
        let mac_low = read32(&w, Reg::Mac0);
        assert(read32.ensures((&regs_at(b, k + 3 + m), Reg::Mac0), mac_low));
        w = w.next();
        let mac_high = read16(&w, Reg::Mac4);
        assert(read16.ensures((&regs_at(b, k + 4 + m), Reg::Mac4), mac_high));
        let mac = Self::mac_from_regs(mac_low, mac_high);
        assert(identified(read8, read16, read32, write8, b, k, m, chip_idx, mac));
        Ok((chip_idx, mac))
    }

    /// Check the register base address.
    pub fn check_base(base_vaddr: usize) -> (r: DevResult)
        ensures
            base_vaddr == 0 <==> r == Err::<(), DevError>(DevError::InvalidParam),
            r matches Err(e) ==> e == DevError::InvalidParam,
    {
        if base_vaddr == 0 {
            return Err(DevError::InvalidParam);
        }
        Ok(())
    }

    /// A DMA allocation result: failed when either address is null.
    pub fn check_dma_allocation(vaddr: usize, paddr: usize) -> (r: DevResult<(usize, usize)>)
        ensures
            (vaddr == 0 || paddr == 0) <==> r == Err::<(usize, usize), DevError>(DevError::NoMemory),
            r matches Err(e) ==> e == DevError::NoMemory,
            r matches Ok(p) ==> p == (vaddr, paddr),
    {
        if vaddr == 0 || paddr == 0 {
            return Err(DevError::NoMemory);
        }
        Ok((vaddr, paddr))
    }

    /// Allocate DMA-coherent memory pages, by the call numbered `calls`.
    pub fn alloc_dma_pages<K: KernelFunc>(pages: usize, calls: &mut CallNo) -> (r: DevResult<(usize, usize)>)
        ensures
            *final(calls) == call_no(old(calls).count() + 1),
            r matches Ok((v, p)) ==> v != 0 && p != 0 && dma_gave::<K>(old(calls).count(), pages, v, p),
            r matches Err(e) ==> e == DevError::NoMemory
                && exists|v: usize, p: usize| #[trigger] dma_gave::<K>(old(calls).count(), pages, v, p) && (v == 0 || p == 0),
    {
        let ghost c = calls.count();
        let (vaddr, paddr) = K::dma_alloc_coherent(pages, &*calls);
        assert(dma_gave::<K>(c, pages, vaddr, paddr));
        calls.advance();
        Self::check_dma_allocation(vaddr, paddr)
    }

    /// Virtual to physical address translation (by the platform).
    pub fn virt_to_phys<K: KernelFunc>(vaddr: usize) -> (p: usize)
        ensures
            phys_of::<K>(vaddr, p),
    {
        K::virt_to_phys(vaddr)
    }

    /// Free DMA pages (by the platform), by the call numbered `calls`.
    pub fn free_dma_pages<K: KernelFunc>(vaddr: usize, pages: usize, calls: &mut CallNo)
        ensures
            dma_freed::<K>(old(calls).count(), vaddr, pages),
            *final(calls) == call_no(old(calls).count() + 1),
    {
        K::dma_free_coherent(vaddr, pages, &*calls);
        calls.advance();
    }

    /// The first part of initialization: check the base address, reset and
    /// identify the controller, then allocate the transmit and the receive
    /// descriptor rings, in that order (the allocations are the kernel
    /// calls numbered from `calls`, one per ring). The window returned
    /// counts the register accesses made.
    pub fn prepare<K, R8, R16, R32, W8>(base_vaddr: usize, read8: &R8, read16: &R16, read32: &R32, write8: &W8, calls: &mut CallNo) -> (r: DevResult<Rtl8169Prepared>)
        where K: KernelFunc, R8: Fn(&Rtl8169Regs, Reg) -> u8, R16: Fn(&Rtl8169Regs, Reg) -> u16,
              R32: Fn(&Rtl8169Regs, Reg) -> u32, W8: Fn(&Rtl8169Regs, Reg, u8),
        requires
            forall|w: &Rtl8169Regs, g: Reg| #[trigger] read8.requires((w, g)),
            forall|w: &Rtl8169Regs, g: Reg| #[trigger] read16.requires((w, g)),
            forall|w: &Rtl8169Regs, g: Reg| #[trigger] read32.requires((w, g)),
            forall|w: &Rtl8169Regs, g: Reg, x: u8| #[trigger] write8.requires((w, g, x)),
        ensures
            base_vaddr == 0 <==> r == Err::<Rtl8169Prepared, DevError>(DevError::InvalidParam),
            r matches Err(e) ==> e == DevError::InvalidParam || e == DevError::BadState || e == DevError::NoMemory,
            // The reset never completed: nothing after the polls
            r == Err::<Rtl8169Prepared, DevError>(DevError::BadState) ==>
                write8.ensures((&regs_at(base_vaddr, 0), Reg::ChipCmd, CMD_RESET), ())
                && reg8_polls_set(read8, base_vaddr, 1, RESET_POLLS as int, Reg::ChipCmd, CMD_RESET),
            // A ring could not be had after the reset and identification
            r == Err::<Rtl8169Prepared, DevError>(DevError::NoMemory) ==>
                (exists|n: int, i: usize, m: [u8; 6]| #[trigger] identified(read8, read16, read32, write8, base_vaddr, 0, n, i, m))
                && (ring_alloc_failed::<K>(old(calls).count(), NUM_TX_DESC as int)
                    || ring_alloc_failed::<K>(old(calls).count() + 1, NUM_RX_DESC as int)),
            // Done: reset and identification, the rings; the window after those accesses
            r matches Ok(p) ==> ring_allocated::<K>(old(calls).count(), NUM_TX_DESC as int, p.tx)
                && ring_allocated::<K>(old(calls).count() + 1, NUM_RX_DESC as int, p.rx)
                && *final(calls) == call_no(old(calls).count() + 2)
                && exists|n: int, i: usize, m: [u8; 6]| #[trigger] identified(read8, read16, read32, write8, base_vaddr, 0, n, i, m)
                    && i == p.chip_idx && m == p.mac && p.regs == regs_at(base_vaddr, 5 + n),
    {
        if base_vaddr == 0 {
            return Err(DevError::InvalidParam);
        }
        let regs = Rtl8169Regs::new(base_vaddr);
        assert(regs.base_addr() == base_vaddr && regs.step() == 0);
        let (chip_idx, mac) = match Self::reset_and_identify(&regs, read8, read16, read32, write8) {
            Ok(id) => id,
            Err(e) => {
                assert(reg8_polls_set(read8, base_vaddr, 1, RESET_POLLS as int, Reg::ChipCmd, CMD_RESET));
                return Err(e);
            },
        };
        let ghost (n, i0, m0) = choose|n: int, i: usize, m: [u8; 6]|
            #[trigger] identified(read8, read16, read32, write8, base_vaddr, 0, n, i, m) && i == chip_idx && m == mac;
        assert(identified(read8, read16, read32, write8, base_vaddr, 0, n, chip_idx, mac));
        // Descriptor rings
        let ghost c = calls.count();
        let tx_pages = Self::ring_pages(NUM_TX_DESC);
        let (tx_vaddr, tx_paddr) = match Self::alloc_dma_pages::<K>(tx_pages, calls) {
            Ok(a) => a,
            Err(e) => return Err(e),
        };
        let rx_pages = Self::ring_pages(NUM_RX_DESC);
        let (rx_vaddr, rx_paddr) = match Self::alloc_dma_pages::<K>(rx_pages, calls) {
            Ok(a) => a,
            Err(e) => return Err(e),
        };
        let regs = Rtl8169Regs::at_access(base_vaddr, Ghost(5 + n));
        let p = Rtl8169Prepared { regs, chip_idx, mac, tx: (tx_vaddr, tx_paddr, tx_pages), rx: (rx_vaddr, rx_paddr, rx_pages) };
        assert(ring_allocated::<K>(c, NUM_TX_DESC as int, p.tx) && ring_allocated::<K>(c + 1, NUM_RX_DESC as int, p.rx));
        Ok(p)
    }

    /// Number of pages for a ring of `count` descriptors.
    pub fn ring_pages(count: usize) -> (n: usize)
        requires
            count * DESC_SIZE + PAGE_SIZE - 1 <= usize::MAX,
        ensures
            n == (count * DESC_SIZE + PAGE_SIZE - 1) / (PAGE_SIZE as int),
    {
        (count * DESC_SIZE + (PAGE_SIZE - 1)) / PAGE_SIZE
    }

    /// Initialize the transmit descriptors: all zero (owned by the CPU).
    pub fn init_tx_ring(tx_ring: &mut [TxDesc])
        ensures
            final(tx_ring)@.len() == old(tx_ring)@.len(),
            forall|i: int| 0 <= i < final(tx_ring)@.len() ==> #[trigger] final(tx_ring)@[i] == TxDesc::zeroed(),
    {
        let mut i: usize = 0;
        while i < tx_ring.len()
            invariant
                i <= tx_ring@.len(),
                tx_ring@.len() == old(tx_ring)@.len(),
                forall|j: int| 0 <= j < i ==> #[trigger] tx_ring@[j] == TxDesc::zeroed(),
            decreases tx_ring@.len() - i,
        {
            tx_ring[i] = TxDesc::new();
            i = i + 1;
        }
    }

    /// Initialize the receive descriptors, each with a buffer from
    /// `alloc_buf`; `buf_vaddr` gives the address of a buffer's memory.
    /// Every descriptor is handed to the NIC, the last one marked end of
    /// ring. The first buffer that cannot be had stops with `NoMemory`.
    pub fn init_rx_ring<K: KernelFunc, A: Fn() -> Option<B>, V: Fn(&B) -> usize>(rx_ring: &mut [RxDesc], alloc_buf: &A, buf_vaddr: &V) -> (r: DevResult<Vec<Option<B>>>)
        requires
            old(rx_ring)@.len() == NUM_RX_DESC,
            alloc_buf.requires(()),
            forall|b: &B| #[trigger] buf_vaddr.requires((b,)),
        ensures
            final(rx_ring)@.len() == NUM_RX_DESC,
            r matches Err(e) ==> e == DevError::NoMemory && alloc_buf.ensures((), None::<B>),
            r matches Ok(v) ==> v@.len() == NUM_RX_DESC && forall|i: int| 0 <= i < NUM_RX_DESC ==>
                rx_slot_armed::<K, B, A, V>(alloc_buf, buf_vaddr, #[trigger] v@[i], final(rx_ring)@[i], i == NUM_RX_DESC - 1),
    {
        let mut rx_buffers: Vec<Option<B>> = Vec::new();
        let mut i: usize = 0;
        while i < NUM_RX_DESC
            invariant
                i <= NUM_RX_DESC,
                rx_ring@.len() == NUM_RX_DESC,
                rx_buffers@.len() == i,
                alloc_buf.requires(()),
                forall|b: &B| #[trigger] buf_vaddr.requires((b,)),
                forall|j: int| 0 <= j < i ==>
                    rx_slot_armed::<K, B, A, V>(alloc_buf, buf_vaddr, #[trigger] rx_buffers@[j], rx_ring@[j], j == NUM_RX_DESC - 1),
            decreases NUM_RX_DESC - i,
        {
            let buf = match alloc_buf() {
                Some(b) => b,
                None => return Err(DevError::NoMemory),
            };
            let va = buf_vaddr(&buf);
            let pa = K::virt_to_phys(va);
            let buf_paddr = pa as u32;
            let is_last = i == NUM_RX_DESC - 1;
            let mut d = rx_ring[i];
            d.setup_rx(buf_paddr, RX_BUF_SIZE as u32, is_last);
            rx_ring[i] = d;
            rx_buffers.push(Some(buf));
            assert(phys_of::<K>(va, pa));
            assert(rx_slot_armed::<K, B, A, V>(alloc_buf, buf_vaddr, rx_buffers@[i as int], rx_ring@[i as int], is_last));
            i = i + 1;
        }
        Ok(rx_buffers)
    }

    /// The receive configuration to program for chip `chip_idx`, given the
    /// current register value.
    pub fn rx_config_value(chip_idx: usize, current: u32) -> (v: u32)
        requires
            chip_idx < chip_version_table().len(),
        ensures
            v == rx_config_for(chip_version_table()[chip_idx as int].rx_config_mask, current),
    {
        let rx_config = (RX_FIFO_THRESH << RX_CFG_FIFO_SHIFT) | (RX_DMA_BURST << RX_CFG_DMA_SHIFT)
            | ACCEPT_BROADCAST | ACCEPT_MULTICAST | ACCEPT_MY_PHYS;
        let chips = chip_versions();
        let mask = chips[chip_idx].rx_config_mask;
        (rx_config & mask) | (current & !mask)
    }

    /// The transmit configuration to program.
    pub fn tx_config_value() -> (v: u32)
        ensures
            v == tx_config(),
    {
        (TX_DMA_BURST << TX_DMA_SHIFT) | (INTER_FRAME_GAP << TX_INTERFRAME_GAP_SHIFT)
    }

    /// The register writes that configure the controller, in order, for
    /// chip `chip_idx`, rings at `tx_desc_paddr` and `rx_desc_paddr` and
    /// the current receive configuration `current_rx_config`.
    pub fn configuration_writes(chip_idx: usize, tx_desc_paddr: usize, rx_desc_paddr: usize, current_rx_config: u32) -> (w: Vec<RegWrite>)
        requires
            chip_idx < chip_version_table().len(),
        ensures
            w@ == config_writes(chip_idx, tx_desc_paddr, rx_desc_paddr,
                rx_config_for(chip_version_table()[chip_idx as int].rx_config_mask, current_rx_config)),
    {
        let mut w: Vec<RegWrite> = Vec::new();
        // Unlock configuration registers
        w.push(RegWrite::Byte(Reg::Cfg9346, UNLOCK));
        // Descriptor ring base addresses
        w.push(RegWrite::Word(Reg::TxDescStartAddrLow, tx_desc_paddr as u32));
        w.push(RegWrite::Word(Reg::TxDescStartAddrHigh, 0));
        w.push(RegWrite::Word(Reg::RxDescStartAddrLow, rx_desc_paddr as u32));
        w.push(RegWrite::Word(Reg::RxDescStartAddrHigh, 0));
        // Early TX threshold and RX max size
        w.push(RegWrite::Byte(Reg::EarlyTxThres, EARLY_TX_THLD));
        w.push(RegWrite::Half(Reg::RxMaxSize, RX_PACKET_MAX_SIZE));
        // RX configuration, merged with the current register value
        w.push(RegWrite::Word(Reg::RxConfig, Self::rx_config_value(chip_idx, current_rx_config)));
        // TX configuration
        w.push(RegWrite::Word(Reg::TxConfig, Self::tx_config_value()));
        // Clear the missed packet counter
        w.push(RegWrite::Word(Reg::RxMissed, 0));
        // Enable TX and RX before the lock for older chips
        if chip_idx <= LAST_EARLY_ENABLE_CHIP {
            w.push(RegWrite::Byte(Reg::ChipCmd, CMD_TX_ENB | CMD_RX_ENB));
        }
        // Lock configuration registers
        w.push(RegWrite::Byte(Reg::Cfg9346, LOCK));
        // Polling mode: mask interrupts and clear pending ones
        w.push(RegWrite::Half(Reg::IntrMask, 0));
        w.push(RegWrite::Half(Reg::IntrStatus, 0xFFFF));
        // Enable TX and RX after the lock for newer chips
        if chip_idx > LAST_EARLY_ENABLE_CHIP {
            w.push(RegWrite::Byte(Reg::ChipCmd, CMD_TX_ENB | CMD_RX_ENB));
        }
        assert(w@ =~= config_writes(chip_idx, tx_desc_paddr, rx_desc_paddr,
            rx_config_for(chip_version_table()[chip_idx as int].rx_config_mask, current_rx_config)));
        w
    }

    /// Perform the writes `writes[from..to]`, in order, through the window
    /// `w` (which counts the accesses).
    fn apply_writes<W8, W16, W32>(w: &mut Rtl8169Regs, writes: &Vec<RegWrite>, from: usize, to: usize, write8: &W8, write16: &W16, write32: &W32)
        where W8: Fn(&Rtl8169Regs, Reg, u8), W16: Fn(&Rtl8169Regs, Reg, u16), W32: Fn(&Rtl8169Regs, Reg, u32),
        requires
            from <= to <= writes@.len(),
            forall|r: &Rtl8169Regs, g: Reg, x: u8| #[trigger] write8.requires((r, g, x)),
            forall|r: &Rtl8169Regs, g: Reg, x: u16| #[trigger] write16.requires((r, g, x)),
            forall|r: &Rtl8169Regs, g: Reg, x: u32| #[trigger] write32.requires((r, g, x)),
        ensures
            forall|k: int| from <= k < to ==> performed(&regs_at(old(w).base_addr(), old(w).step() + (k - from)),
                write8, write16, write32, #[trigger] writes@[k]),
            *final(w) == regs_at(old(w).base_addr(), old(w).step() + (to - from)),
    {
        let ghost b = w.base_addr();
        let ghost s = w.step();
        let mut i: usize = from;
        while i < to
            invariant
                from <= i <= to <= writes@.len(),
                b == old(w).base_addr() && s == old(w).step(),
                *w == regs_at(b, s + (i - from)),
                forall|r: &Rtl8169Regs, g: Reg, x: u8| #[trigger] write8.requires((r, g, x)),
                forall|r: &Rtl8169Regs, g: Reg, x: u16| #[trigger] write16.requires((r, g, x)),
                forall|r: &Rtl8169Regs, g: Reg, x: u32| #[trigger] write32.requires((r, g, x)),
                forall|k: int| from <= k < i ==> performed(&regs_at(b, s + (k - from)), write8, write16, write32, #[trigger] writes@[k]),
            decreases to - i,
        {
            match writes[i] {
                RegWrite::Byte(g, x) => write8(&*w, g, x),
                RegWrite::Half(g, x) => write16(&*w, g, x),
                RegWrite::Word(g, x) => write32(&*w, g, x),
            }
            assert(performed(&regs_at(b, s + (i - from)), write8, write16, write32, writes@[i as int]));
            *w = w.next();
            i = i + 1;
        }
    }

    /// Configure the hardware: perform `configuration_writes` in order,
    /// reading the receive configuration register just before it is
    /// written (its new value keeps the bits outside the chip mask).
    pub fn configure_hardware<R32, W8, W16, W32>(regs: &Rtl8169Regs, read32: &R32, write8: &W8, write16: &W16, write32: &W32, tx_desc_paddr: usize, rx_desc_paddr: usize, chip_idx: usize) -> (r: DevResult)
        where R32: Fn(&Rtl8169Regs, Reg) -> u32, W8: Fn(&Rtl8169Regs, Reg, u8),
              W16: Fn(&Rtl8169Regs, Reg, u16), W32: Fn(&Rtl8169Regs, Reg, u32),
        requires
            chip_idx < chip_version_table().len(),
            forall|w: &Rtl8169Regs, g: Reg| #[trigger] read32.requires((w, g)),
            forall|w: &Rtl8169Regs, g: Reg, x: u8| #[trigger] write8.requires((w, g, x)),
            forall|w: &Rtl8169Regs, g: Reg, x: u16| #[trigger] write16.requires((w, g, x)),
            forall|w: &Rtl8169Regs, g: Reg, x: u32| #[trigger] write32.requires((w, g, x)),
        ensures
            r is Ok,
            // Counted from the window's count: the writes before the receive
            // configuration, the read of the receive configuration, the rest
            exists|current: u32| #[trigger] read32.ensures((&regs_at(regs.base_addr(), regs.step() + RX_CONFIG_WRITE), Reg::RxConfig), current)
                && configured_in_order(regs.base_addr(), regs.step(), write8, write16, write32,
                    config_writes(chip_idx, tx_desc_paddr, rx_desc_paddr,
                        rx_config_for(chip_version_table()[chip_idx as int].rx_config_mask, current))),
    {
        let ghost b = regs.base_addr();
        let ghost k = regs.step();
        let mut w = *regs;
        // The writes before the receive configuration do not depend on it
        let before = Self::configuration_writes(chip_idx, tx_desc_paddr, rx_desc_paddr, 0);
        Self::apply_writes(&mut w, &before, 0, RX_CONFIG_WRITE, write8, write16, write32);
        let current = read32(&w, Reg::RxConfig);
        assert(read32.ensures((&regs_at(b, k + RX_CONFIG_WRITE), Reg::RxConfig), current));
        w = w.next();
        let writes = Self::configuration_writes(chip_idx, tx_desc_paddr, rx_desc_paddr, current);
        proof {
            assert forall|j: int| 0 <= j < RX_CONFIG_WRITE implies before@[j] == writes@[j] by {}
        }
        Self::apply_writes(&mut w, &writes, RX_CONFIG_WRITE, writes.len(), write8, write16, write32);
        proof {
            assert forall|j: int| 0 <= j < writes@.len() implies performed(
                &regs_at(b, if j < RX_CONFIG_WRITE { k + j } else { k + 1 + j }), write8, write16, write32, #[trigger] writes@[j]) by {
                if j < RX_CONFIG_WRITE {
                    assert(before@[j] == writes@[j]);
                    assert(performed(&regs_at(b, k + (j - 0)), write8, write16, write32, before@[j]));
                } else {
                    assert(performed(&regs_at(b, k + RX_CONFIG_WRITE + 1 + (j - RX_CONFIG_WRITE)), write8, write16, write32, writes@[j]));
                }
            }
        }
        Ok(())
    }

    /// Set the rings up and configure the controller once the rings are
    /// allocated (at `tx_desc_paddr` and `rx_desc_paddr`): the transmit
    /// descriptors cleared, a buffer for every receive descriptor (`NoMemory`,
    /// with no register access, when `alloc_buf` gives none), then the
    /// configuration of `configure_hardware`, in order. Returns the receive
    /// buffers and the window after the 15 configuration accesses.
    pub fn set_up_rings_and_configure<K, A, V, R32, W8, W16, W32>(
        regs: &Rtl8169Regs,
        tx_ring: &mut [TxDesc],
        rx_ring: &mut [RxDesc],
        tx_desc_paddr: usize,
        rx_desc_paddr: usize,
        chip_idx: usize,
        alloc_buf: &A,
        buf_vaddr: &V,
        read32: &R32,
        write8: &W8,
        write16: &W16,
        write32: &W32,
    ) -> (r: DevResult<(Vec<Option<B>>, Rtl8169Regs)>)
        where K: KernelFunc, A: Fn() -> Option<B>, V: Fn(&B) -> usize, R32: Fn(&Rtl8169Regs, Reg) -> u32,
              W8: Fn(&Rtl8169Regs, Reg, u8), W16: Fn(&Rtl8169Regs, Reg, u16), W32: Fn(&Rtl8169Regs, Reg, u32),
        requires
            chip_idx < chip_version_table().len(),
            old(rx_ring)@.len() == NUM_RX_DESC,
            alloc_buf.requires(()),
            forall|b: &B| #[trigger] buf_vaddr.requires((b,)),
            forall|w: &Rtl8169Regs, g: Reg| #[trigger] read32.requires((w, g)),
            forall|w: &Rtl8169Regs, g: Reg, x: u8| #[trigger] write8.requires((w, g, x)),
            forall|w: &Rtl8169Regs, g: Reg, x: u16| #[trigger] write16.requires((w, g, x)),
            forall|w: &Rtl8169Regs, g: Reg, x: u32| #[trigger] write32.requires((w, g, x)),
        ensures
            final(tx_ring)@.len() == old(tx_ring)@.len(),
            final(rx_ring)@.len() == NUM_RX_DESC,
            r matches Err(e) ==> e == DevError::NoMemory && alloc_buf.ensures((), None::<B>),
            r is Ok ==> forall|i: int| 0 <= i < final(tx_ring)@.len() ==> #[trigger] final(tx_ring)@[i] == TxDesc::zeroed(),
            r matches Ok((v, _)) ==> v@.len() == NUM_RX_DESC && forall|i: int| 0 <= i < NUM_RX_DESC ==>
                rx_slot_armed::<K, B, A, V>(alloc_buf, buf_vaddr, #[trigger] v@[i], final(rx_ring)@[i], i == NUM_RX_DESC - 1),
            r matches Ok((_, w)) ==> w == regs_at(regs.base_addr(), regs.step() + 15),
            r is Ok ==> exists|current: u32|
                #[trigger] read32.ensures((&regs_at(regs.base_addr(), regs.step() + RX_CONFIG_WRITE), Reg::RxConfig), current)
                && configured_in_order(regs.base_addr(), regs.step(), write8, write16, write32,
                    config_writes(chip_idx, tx_desc_paddr, rx_desc_paddr,
                        rx_config_for(chip_version_table()[chip_idx as int].rx_config_mask, current))),
    {
        Self::init_tx_ring(tx_ring);
        let rx_buffers = match Self::init_rx_ring::<K, A, V>(rx_ring, alloc_buf, buf_vaddr) {
            Ok(v) => v,
            Err(e) => return Err(e),
        };
        let _ = Self::configure_hardware(regs, read32, write8, write16, write32, tx_desc_paddr, rx_desc_paddr, chip_idx);
        let after = Rtl8169Regs::at_access(regs.base(), Ghost(regs.step() + 15));
        Ok((rx_buffers, after))
    }

    /// The controller state after initialization: no transmit in flight,
    /// the receive ring holding `rx_buffers`.
    pub fn new(base_vaddr: usize, regs: Rtl8169Regs, chip_idx: usize, mac_addr: [u8; 6], tx_desc_paddr: usize, tx_desc_pages: usize, rx_desc_paddr: usize, rx_desc_pages: usize, rx_buffers: Vec<Option<B>>, link_up: bool) -> (nic: Self)
        requires
            rx_buffers@.len() == NUM_RX_DESC,
        ensures
            nic.wf(),
            nic.head() == 0 && nic.tail() == 0 && nic.rx_index() == 0,
            nic.rx_slots() == rx_buffers@,
            nic.chip() == chip_idx && nic.mac() == mac_addr && nic.base() == base_vaddr && nic.link() == link_up,
            nic.window() == regs,
            nic.allocations() == ((tx_desc_paddr, tx_desc_pages), (rx_desc_paddr, rx_desc_pages)),
    {
        let mut tx_buffers: Vec<Option<B>> = Vec::new();
        let mut i: usize = 0;
        while i < NUM_TX_DESC
            invariant
                i <= NUM_TX_DESC,
                tx_buffers@.len() == i,
                forall|j: int| 0 <= j < i ==> (#[trigger] tx_buffers@[j]) is None,
            decreases NUM_TX_DESC - i,
        {
            tx_buffers.push(None);
            i = i + 1;
        }
        Rtl8169Nic {
            base_vaddr,
            regs,
            chip_idx,
            mac_addr,
            tx_desc_paddr,
            tx_desc_pages,
            tx_buffers,
            tx_head: 0,
            tx_tail: 0,
            rx_desc_paddr,
            rx_desc_pages,
            rx_buffers,
            rx_cur: 0,
            link_up,
        }
    }

    /// Reclaim completed TX descriptors: from the tail, release the buffer
    /// of every descriptor the NIC has given back, up to the first one it
    /// still owns or the head.
    pub fn reclaim_tx_buffers(&mut self, tx_ring: &[TxDesc])
        requires
            old(self).wf(),
            tx_ring@.len() == NUM_TX_DESC,
        ensures
            final(self).wf(),
            final(self).head() == old(self).head(),
            final(self).tail() == final(self).head() || tx_ring@[final(self).tail() as int].owned(),
            forall|i: int| 0 <= i < NUM_TX_DESC && in_flight(i, old(self).tail() as int, old(self).head() as int)
                && !in_flight(i, final(self).tail() as int, final(self).head() as int) ==> !tx_ring@[i].owned(),
            forall|i: int| 0 <= i < NUM_TX_DESC && in_flight(i, final(self).tail() as int, final(self).head() as int)
                ==> #[trigger] final(self).tx_slots()[i] == old(self).tx_slots()[i],
            final(self).rx_slots() == old(self).rx_slots(),
            final(self).rx_index() == old(self).rx_index(),
    {
        while self.tx_tail != self.tx_head
            invariant
                self.wf(),
                tx_ring@.len() == NUM_TX_DESC,
                self.tx_head == old(self).tx_head,
                self.rx_buffers@ == old(self).rx_buffers@,
                self.rx_cur == old(self).rx_cur,
                forall|i: int| 0 <= i < NUM_TX_DESC && in_flight(i, old(self).tail() as int, old(self).head() as int)
                    && !in_flight(i, self.tail() as int, self.head() as int) ==> !tx_ring@[i].owned(),
                forall|i: int| 0 <= i < NUM_TX_DESC && in_flight(i, self.tail() as int, self.head() as int)
                    ==> #[trigger] self.tx_slots()[i] == old(self).tx_slots()[i],
                in_flight(self.tail() as int, old(self).tail() as int, old(self).head() as int) || self.tail() == self.head(),
            ensures
                self.tx_tail == self.tx_head || tx_ring@[self.tx_tail as int].owned(),
            decreases crate::ring::in_flight_count(NUM_TX_DESC as int, self.tail() as int, self.head() as int),
        {
            if tx_ring[self.tx_tail].is_owned() {
                break;
            }
            let ghost t = self.tx_tail as int;
            proof {
                lemma_reclaim_one(self.tx_buffers@, NUM_TX_DESC as int, t, self.tx_head as int);
                lemma_next_slot(t, NUM_TX_DESC as int);
            }
            // Descriptor completed, release its buffer
            self.tx_buffers.set(self.tx_tail, None);
            self.tx_tail = (self.tx_tail + 1) % NUM_TX_DESC;
        }
    }

    /// Whether a frame can be queued: the ring is not full and the head
    /// descriptor belongs to the CPU.
    pub fn can_transmit(&self, tx_ring: &[TxDesc]) -> (r: bool)
        requires
            self.wf(),
            tx_ring@.len() == NUM_TX_DESC,
        ensures
            r == (next_slot(self.head() as int, NUM_TX_DESC as int) != self.tail()
                && !tx_ring@[self.head() as int].owned()),
    {
        let next_head = (self.tx_head + 1) % NUM_TX_DESC;
        if next_head == self.tx_tail {
            return false;
        }
        !tx_ring[self.tx_head].is_owned()
    }

    /// Whether the current receive descriptor holds a frame.
    pub fn can_receive(&self, rx_ring: &[RxDesc]) -> (r: bool)
        requires
            self.wf(),
            rx_ring@.len() == NUM_RX_DESC,
        ensures
            r == !rx_ring@[self.rx_index() as int].owned(),
    {
        !rx_ring[self.rx_cur].is_owned()
    }

    /// Receive queue size.
    pub fn rx_queue_size(&self) -> (n: usize)
        ensures
            n == NUM_RX_DESC,
    {
        NUM_RX_DESC
    }

    /// Transmit queue size.
    pub fn tx_queue_size(&self) -> (n: usize)
        ensures
            n == NUM_TX_DESC,
    {
        NUM_TX_DESC
    }

    /// Reclaim completed TX descriptors.
    pub fn recycle_tx_buffers(&mut self, tx_ring: &[TxDesc]) -> (r: DevResult)
        requires
            old(self).wf(),
            tx_ring@.len() == NUM_TX_DESC,
        ensures
            r is Ok,
            final(self).wf(),
            final(self).head() == old(self).head(),
            final(self).tail() == final(self).head() || tx_ring@[final(self).tail() as int].owned(),
    {
        self.reclaim_tx_buffers(tx_ring);
        Ok(())
    }

    /// Queue the frame in `buf` (`len` bytes at `pkt_vaddr`): reclaim
    /// completed descriptors; `Again` when the ring is full or its head is
    /// busy, `InvalidParam` for an empty or oversized frame; otherwise the
    /// head descriptor is set up for the frame and handed to the NIC, the
    /// buffer kept until the descriptor is reclaimed. Returns the index of
    /// the descriptor used.
    pub fn transmit<K: KernelFunc>(&mut self, tx_ring: &mut [TxDesc], buf: B, len: usize, pkt_vaddr: usize) -> (r: DevResult<usize>)
        requires
            old(self).wf(),
            old(tx_ring)@.len() == NUM_TX_DESC,
        ensures
            final(self).wf(),
            final(tx_ring)@.len() == NUM_TX_DESC,
            r matches Err(e) ==> e == DevError::Again || e == DevError::InvalidParam,
            r matches Err(e) && e == DevError::InvalidParam ==> len == 0 || len > RX_BUF_SIZE,
            r matches Ok(idx) ==> 0 < len <= RX_BUF_SIZE && idx == old(self).head()
                && final(self).head() == next_slot(idx as int, NUM_TX_DESC as int)
                && final(self).tx_slots()[idx as int] == Some(buf)
                && final(tx_ring)@[idx as int].owned()
                && final(tx_ring)@[idx as int].status & 0xFFFF == len
                && final(tx_ring)@[idx as int].status == tx_status(len as u32, idx == NUM_TX_DESC - 1)
                && final(tx_ring)@[idx as int].buf_addr_high == 0
                && (exists|pa: usize| #[trigger] phys_of::<K>(pkt_vaddr, pa) && final(tx_ring)@[idx as int].buf_addr_low == pa as u32),
            r is Ok ==> forall|i: int| 0 <= i < NUM_TX_DESC && i != r->Ok_0 ==> #[trigger] final(tx_ring)@[i] == old(tx_ring)@[i],
            r is Err ==> final(tx_ring)@ == old(tx_ring)@,
            final(self).rx_slots() == old(self).rx_slots(),
            final(self).rx_index() == old(self).rx_index(),
    {
        // Reclaim completed TX buffers first
        self.reclaim_tx_buffers(tx_ring);
        if !self.can_transmit(tx_ring) {
            return Err(DevError::Again);
        }
        if len == 0 || len > RX_BUF_SIZE {
            return Err(DevError::InvalidParam);
        }
        let pa = K::virt_to_phys(pkt_vaddr);
        assert(phys_of::<K>(pkt_vaddr, pa));
        let buf_paddr = pa as u32;
        // Set the TX descriptor up
        let idx = self.tx_head;
        let is_last = idx == NUM_TX_DESC - 1;
        let mut d = tx_ring[idx];
        d.setup_tx(buf_paddr, len as u32, is_last);
        tx_ring[idx] = d;
        proof {
            lemma_use_one(self.tx_buffers@, NUM_TX_DESC as int, self.tx_tail as int, idx as int, buf);
            lemma_next_slot(idx as int, NUM_TX_DESC as int);
            assert((len as u32) & 0xFFFFu32 == len as u32) by (bit_vector)
                requires len as u32 <= 2048u32;
        }
        // Keep the buffer until the descriptor is reclaimed
        self.tx_buffers.set(idx, Some(buf));
        self.tx_head = (self.tx_head + 1) % NUM_TX_DESC;
        Ok(idx)
    }

    /// Whether the transmit wait has run out of time.
    pub fn tx_timed_out(start: usize, now: usize) -> (r: bool)
        ensures
            r == (now.wrapping_sub(start) > TX_TIMEOUT_MS),
    {
        now.wrapping_sub(start) > TX_TIMEOUT_MS
    }

    /// Take a received frame: `Again` when the NIC still owns the current
    /// descriptor or the frame is empty, `Io` for an erroneous frame,
    /// `BadState` when the descriptor has no buffer. Otherwise the frame's
    /// buffer is returned with its length, the descriptor gets the new
    /// buffer `new_buf` (`NoMemory` when there is none: the frame is then
    /// dropped and the descriptor left without buffer) and is handed back
    /// to the NIC, and the next descriptor is used next time.
    pub fn receive<K: KernelFunc>(&mut self, rx_ring: &mut [RxDesc], new_buf: Option<(B, usize)>) -> (r: DevResult<RxDone<B>>)
        requires
            old(self).wf(),
            old(rx_ring)@.len() == NUM_RX_DESC,
        ensures
            final(self).wf(),
            final(rx_ring)@.len() == NUM_RX_DESC,
            ({
                let d = old(rx_ring)@[old(self).rx_index() as int];
                &&& d.owned() ==> r == Err::<RxDone<B>, DevError>(DevError::Again)
                &&& !d.owned() && d.rx_length() is None ==> r == Err::<RxDone<B>, DevError>(DevError::Io)
                &&& d.rx_length() == Some(0usize) ==> r == Err::<RxDone<B>, DevError>(DevError::Again)
                &&& d.rx_length() matches Some(n) ==> (n > 0 ==> match old(self).rx_slots()[old(self).rx_index() as int] {
                    None => r == Err::<RxDone<B>, DevError>(DevError::BadState),
                    Some(b) => match new_buf {
                        None => r == Err::<RxDone<B>, DevError>(DevError::NoMemory)
                            && final(self).rx_slots()[old(self).rx_index() as int] is None,
                        Some((nb, nv)) => r matches Ok(done) && done.buf == b && done.len == n
                            && final(self).rx_slots()[old(self).rx_index() as int] == Some(nb)
                            && final(rx_ring)@[old(self).rx_index() as int].owned()
                            && (exists|pa: usize| #[trigger] phys_of::<K>(nv, pa)
                                && final(rx_ring)@[old(self).rx_index() as int]
                                    == rx_armed_desc(pa, old(self).rx_index() == NUM_RX_DESC - 1))
                            && final(self).rx_index() == next_slot(old(self).rx_index() as int, NUM_RX_DESC as int),
                    },
                })
            }),
            r is Err ==> final(self).rx_index() == old(self).rx_index(),
            r is Err ==> final(rx_ring)@ == old(rx_ring)@,
            final(self).tx_slots() == old(self).tx_slots(),
            final(self).head() == old(self).head(),
            final(self).tail() == old(self).tail(),
    {
        if !self.can_receive(rx_ring) {
            return Err(DevError::Again);
        }
        let idx = self.rx_cur;
        // Received length
        let len = match rx_ring[idx].get_rx_length() {
            Some(n) => n,
            None => return Err(DevError::Io),
        };
        if len == 0 {
            return Err(DevError::Again);
        }
        // Take the buffer
        let mut taken: Option<B> = None;
        core::mem::swap(&mut taken, &mut self.rx_buffers[idx]);
        let rx_buf = match taken {
            Some(b) => b,
            None => return Err(DevError::BadState),
        };
        // The new buffer for this descriptor
        let (new_b, new_vaddr) = match new_buf {
            Some(p) => p,
            None => return Err(DevError::NoMemory),
        };
        let new_pa = K::virt_to_phys(new_vaddr);
        assert(phys_of::<K>(new_vaddr, new_pa));
        let new_buf_paddr = new_pa as u32;
        // Hand the descriptor back to the NIC
        let is_last = idx == NUM_RX_DESC - 1;
        let mut d = rx_ring[idx];
        d.setup_rx(new_buf_paddr, RX_BUF_SIZE as u32, is_last);
        rx_ring[idx] = d;
        self.rx_buffers.set(idx, Some(new_b));
        // Move to the next descriptor
        self.rx_cur = (self.rx_cur + 1) % NUM_RX_DESC;
        Ok(RxDone { buf: rx_buf, len })
    }

    /// The MAC address.
    pub fn mac_address(&self) -> (mac: EthernetAddress)
        ensures
            mac.0 == self.mac(),
    {
        EthernetAddress(self.mac_addr)
    }

    /// Device name.
    pub fn device_name(&self) -> (s: &'static str)
        ensures
            s@ == "rtl8169"@,
    {
        "rtl8169"
    }

    /// Register window of the controller.
    pub fn regs(&self) -> (r: &Rtl8169Regs)
        ensures
            *r == self.window(),
    {
        &self.regs
    }

    /// Descriptor ring allocations to free at shutdown:
    /// `((tx_paddr, tx_pages), (rx_paddr, rx_pages))`.
    pub fn ring_allocations(&self) -> (r: ((usize, usize), (usize, usize)))
        ensures
            r == self.allocations(),
    {
        ((self.tx_desc_paddr, self.tx_desc_pages), (self.rx_desc_paddr, self.rx_desc_pages))
    }
}

} // verus!
