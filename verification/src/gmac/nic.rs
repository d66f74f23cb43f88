//! The GMAC network interface: reset and identification, descriptor ring
//! set-up in chained mode, DMA and MAC configuration, and the bookkeeping
//! of the transmit and receive rings (polling mode).
use vstd::prelude::*;

use std::collections::VecDeque;

use super::desc::{RxDesc, TxDesc};
use super::regs::{
    gmac_regs_at, group_gmac_regs, GmacRegs, RegWrite, DMA_BUS_MODE, DMA_BUS_MODE_AAL, DMA_BUS_MODE_FB, DMA_BUS_MODE_PBL_8,
    DMA_BUS_MODE_SWR, DMA_BUS_MODE_USP, DMA_INTERRUPT_ENABLE, DMA_OPERATION_MODE, DMA_OP_MODE_FUF,
    DMA_OP_MODE_RSF, DMA_OP_MODE_SR, DMA_OP_MODE_ST, DMA_OP_MODE_TSF, DMA_RX_DESC_LIST_ADDR,
    DMA_STATUS, DMA_TX_DESC_LIST_ADDR, MAC_ADDRESS0_HIGH, MAC_ADDRESS0_LOW, MAC_CONFIGURATION,
    MAC_CONFIG_ACS, MAC_CONFIG_DM, MAC_CONFIG_DO, MAC_CONFIG_IPC, MAC_CONFIG_RE, MAC_CONFIG_TE,
    MAC_FILTER_RA, MAC_FRAME_FILTER,
};
use crate::calls::{call_no, CallNo};
use crate::ring::{in_flight, lemma_next_slot, lemma_reclaim_one, lemma_use_one, next_slot, ring_wf};
use crate::types::{DevError, DevResult, EthernetAddress};

verus! {

broadcast use group_gmac_regs;

/// Platform-specific kernel functions: memory management and address
/// translation.
///
/// The platform integration layer implements it; nothing is assumed of
/// what it returns. Allocations and frees are handed the number of the call
/// (see `CallNo`), which the platform does not need to look at.
pub trait KernelFunc {
    /// Convert virtual address to physical address.
    fn virt_to_phys(addr: usize) -> usize;

    /// Convert physical address to virtual address.
    fn phys_to_virt(addr: usize) -> usize;

    /// Allocate DMA-coherent memory (page-aligned); returns
    /// `(virtual_address, physical_address)`, `(0, 0)` on failure.
    fn dma_alloc_coherent(pages: usize, call: &CallNo) -> (usize, usize);

    /// Free DMA-coherent memory.
    fn dma_free_coherent(vaddr: usize, pages: usize, call: &CallNo);
}

/// Call number `c` to `K` was an allocation of `pages` DMA pages that
/// returned `(vaddr, paddr)`.
pub open spec fn dma_gave<K: KernelFunc>(c: int, pages: usize, vaddr: usize, paddr: usize) -> bool {
    call_ensures(K::dma_alloc_coherent, (pages, &call_no(c)), (vaddr, paddr))
}

/// `K` translated the virtual address `vaddr` to the physical address `paddr`.
pub open spec fn phys_of<K: KernelFunc>(vaddr: usize, paddr: usize) -> bool {
    call_ensures(K::virt_to_phys, (vaddr,), paddr)
}

/// Call number `c` to `K` asked to free the `pages` DMA pages at `vaddr`.
pub open spec fn dma_freed<K: KernelFunc>(c: int, vaddr: usize, pages: usize) -> bool {
    call_ensures(K::dma_free_coherent, (vaddr, pages, &call_no(c)), ())
}

/// Number of pages of a ring of `count` descriptors.
pub open spec fn ring_page_count(count: int) -> int {
    (count * DESC_SIZE + PAGE_SIZE - 1) / (PAGE_SIZE as int)
}

/// Slot `slot` holds a buffer that `alloc_buf` gave, and the descriptor `d`
/// is armed with that buffer's physical address (translated by `K` from
/// the address `buf_vaddr` gives), the receive buffer size and `next`.
pub open spec fn rx_armed<K: KernelFunc, B, A: Fn() -> Option<B>, V: Fn(&B) -> usize>(
    alloc_buf: &A,
    buf_vaddr: &V,
    slot: Option<B>,
    d: RxDesc,
    next: u32,
) -> bool {
    slot matches Some(b) && alloc_buf.ensures((), Some(b)) && exists|va: usize, pa: usize|
        #[trigger] buf_vaddr.ensures((&b,), va) && #[trigger] phys_of::<K>(va, pa)
            && d == RxDesc::rx_setup(pa as u32, RX_BUFFER_SIZE as u32, next)
}

/// Access `k + j` of the window at `base` was a read of the register at
/// `off` through `read` that found a bit of `mask` set.
pub open spec fn reg_poll_set<R: Fn(&GmacRegs, usize) -> u32>(read: &R, base: usize, k: int, j: int, off: usize, mask: u32) -> bool {
    exists|v: u32| #[trigger] read.ensures((&gmac_regs_at(base, k + j), off), v) && v & mask != 0
}

/// Accesses `k` to `k + n - 1` of the window at `base` were reads of the
/// register at `off` that found a bit of `mask` set.
pub open spec fn reg_polls_set<R: Fn(&GmacRegs, usize) -> u32>(read: &R, base: usize, k: int, n: int, off: usize, mask: u32) -> bool {
    forall|j: int| 0 <= j < n ==> #[trigger] reg_poll_set(read, base, k, j, off, mask)
}

/// From access `k` of the window at `base` on, a software reset completed:
/// the reset bit written at `k`, then `n` polls (fewer than the budget)
/// that found it set, and a poll that found it clear.
pub open spec fn reset_done<R: Fn(&GmacRegs, usize) -> u32, W: Fn(&GmacRegs, usize, u32)>(read: &R, write: &W, base: usize, k: int, n: int) -> bool {
    &&& write.ensures((&gmac_regs_at(base, k), DMA_BUS_MODE, DMA_BUS_MODE_SWR), ())
    &&& 0 <= n < RESET_POLLS
    &&& reg_polls_set(read, base, k + 1, n, DMA_BUS_MODE, DMA_BUS_MODE_SWR)
    &&& exists|v: u32| #[trigger] read.ensures((&gmac_regs_at(base, k + 1 + n), DMA_BUS_MODE), v) && v & DMA_BUS_MODE_SWR == 0
}

/// From access `k` of the window at `base` on, the MAC address was read
/// (low word, then high word) and, when all zeros or all ones, replaced by
/// the default one, written to the registers; `m` accesses in all.
pub open spec fn mac_read_from<R: Fn(&GmacRegs, usize) -> u32, W: Fn(&GmacRegs, usize, u32)>(read: &R, write: &W, base: usize, k: int, mac: [u8; 6], m: int) -> bool {
    exists|lo: u32, hi: u32| #[trigger] read.ensures((&gmac_regs_at(base, k), MAC_ADDRESS0_LOW), lo)
        && #[trigger] read.ensures((&gmac_regs_at(base, k + 1), MAC_ADDRESS0_HIGH), hi)
        && if mac_invalid(mac_of(lo, hi)) {
            mac == default_mac() && m == 4
                && write.ensures((&gmac_regs_at(base, k + 2), MAC_ADDRESS0_LOW, 0x0000_0002u32), ())
                && write.ensures((&gmac_regs_at(base, k + 3), MAC_ADDRESS0_HIGH, 0x0000_0100u32), ())
        } else {
            mac == mac_of(lo, hi) && m == 2
        }
}

/// Both rings allocated, `(vaddr, paddr, pages)` each, by two calls to `K`:
/// the TX ring by call number `c`, the RX ring by call number `c + 1`.
pub open spec fn rings_allocated<K: KernelFunc>(c: int, t: (usize, usize, usize), x: (usize, usize, usize)) -> bool {
    &&& t.0 != 0 && t.1 != 0 && t.2 == ring_page_count(TX_RING_SIZE as int) && dma_gave::<K>(c, t.2, t.0, t.1)
    &&& x.0 != 0 && x.1 != 0 && x.2 == ring_page_count(RX_RING_SIZE as int) && dma_gave::<K>(c + 1, x.2, x.0, x.1)
}

/// The rings could not be had, the calls to `K` numbered from `c`: the TX
/// ring allocation (call `c`) failed; or it did not, the RX one (call
/// `c + 1`) did and the TX ring was given back (call `c + 2`).
pub open spec fn rings_failed<K: KernelFunc>(c: int) -> bool {
    ||| exists|v: usize, p: usize| #[trigger] dma_gave::<K>(c, ring_page_count(TX_RING_SIZE as int) as usize, v, p)
        && (v == 0 || p == 0)
    ||| exists|tv: usize, tp: usize, v: usize, p: usize|
        #[trigger] dma_gave::<K>(c, ring_page_count(TX_RING_SIZE as int) as usize, tv, tp) && tv != 0 && tp != 0
        && #[trigger] dma_gave::<K>(c + 1, ring_page_count(RX_RING_SIZE as int) as usize, v, p) && (v == 0 || p == 0)
        && dma_freed::<K>(c + 2, tv, ring_page_count(TX_RING_SIZE as int) as usize)
}

/// What `prepare` hands to `bring_up`: the register window (counting the
/// accesses made so far), the MAC address and the two ring allocations
/// `(vaddr, paddr, pages)`.
pub struct GmacPrepared {
    pub regs: GmacRegs,
    pub mac: [u8; 6],
    pub tx: (usize, usize, usize),
    pub rx: (usize, usize, usize),
}

/// Number of RX descriptors.
pub const RX_RING_SIZE: usize = 128;
/// Number of TX descriptors.
pub const TX_RING_SIZE: usize = 128;
/// RX buffer size: MTU(1500) + Ethernet header(14) + VLAN(4) + CRC(4) + align(4).
pub const RX_BUFFER_SIZE: usize = 1526;
/// Buffer pool size (2x ring size).
pub const RX_POOL_SIZE: usize = 256;
/// Page size for DMA allocation.
pub const PAGE_SIZE: usize = 4096;
/// Size of a descriptor.
pub const DESC_SIZE: usize = 32;
/// Number of software-reset polls.
pub const RESET_POLLS: u32 = 1000;

/// The MAC address held in MAC_ADDRESS0: bytes 0..3 in the low word
/// (least significant first), bytes 4..5 in the high word.
pub open spec fn mac_of(low: u32, high: u32) -> [u8; 6] {
    [
        (low & 0xFF) as u8,
        ((low >> 8u32) & 0xFF) as u8,
        ((low >> 16u32) & 0xFF) as u8,
        ((low >> 24u32) & 0xFF) as u8,
        (high & 0xFF) as u8,
        ((high >> 8u32) & 0xFF) as u8,
    ]
}

/// A MAC address that cannot be used: all zeros or all ones.
pub open spec fn mac_invalid(mac: [u8; 6]) -> bool {
    mac@ == seq![0u8, 0, 0, 0, 0, 0] || mac@ == seq![0xFFu8, 0xFF, 0xFF, 0xFF, 0xFF, 0xFF]
}

/// The locally administered address used when the hardware holds none:
/// 02:00:00:00:00:01 (what `0x0000_0002` and `0x0000_0100` program).
pub open spec fn default_mac() -> [u8; 6] {
    [0x02u8, 0x00, 0x00, 0x00, 0x00, 0x01]
}

/// Physical address of the descriptor after descriptor `i` in a chained
/// ring of `n` descriptors at `paddr` (the last one points at the first).
pub open spec fn next_desc_paddr(paddr: usize, i: int, n: int) -> u32 {
    if i == n - 1 {
        paddr as u32
    } else {
        (paddr + (i + 1) * DESC_SIZE) as u32
    }
}

/// The register writes that configure the DMA and the MAC once the
/// descriptor rings at `tx_paddr` and `rx_paddr` are set up: ring
/// addresses, bus mode (PBL 8, fixed burst, address-aligned beats,
/// separate PBL), store-and-forward operation, transmitter and receiver
/// enabled in full duplex with checksum offload, pad/CRC stripping and no
/// receive of own frames, receive-all filter, interrupts disabled.
pub open spec fn config_writes(tx_paddr: usize, rx_paddr: usize) -> Seq<(usize, u32)> {
    seq![
        (DMA_TX_DESC_LIST_ADDR, tx_paddr as u32),
        (DMA_RX_DESC_LIST_ADDR, rx_paddr as u32),
        (DMA_BUS_MODE, DMA_BUS_MODE_PBL_8 | DMA_BUS_MODE_FB | DMA_BUS_MODE_AAL | DMA_BUS_MODE_USP),
        (DMA_OPERATION_MODE, DMA_OP_MODE_TSF | DMA_OP_MODE_RSF | DMA_OP_MODE_FUF),
        (MAC_CONFIGURATION, MAC_CONFIG_TE | MAC_CONFIG_RE | MAC_CONFIG_DM | MAC_CONFIG_IPC | MAC_CONFIG_ACS | MAC_CONFIG_DO),
        (MAC_FRAME_FILTER, MAC_FILTER_RA),
        (DMA_INTERRUPT_ENABLE, 0u32),
    ]
}

/// A received frame: the buffer that holds it and the packet length.
pub struct RxDone<B> {
    pub buf: B,
    pub len: usize,
}

/// Outcome of a receive: the frame or the error, and whether the DMA
/// engine is to be told (RX poll demand) that a descriptor was handed back.
pub struct RxResult<B> {
    pub result: DevResult<RxDone<B>>,
    pub poll_demand: bool,
}

/// GMAC network interface controller.
pub struct GmacNic<B> {
    base_vaddr: usize,
    mac_addr: [u8; 6],
    tx_desc_paddr: usize,
    tx_desc_pages: usize,
    tx_buffers: Vec<Option<B>>,
    tx_head: usize,
    tx_tail: usize,
    rx_desc_paddr: usize,
    rx_desc_pages: usize,
    rx_buffers: Vec<Option<B>>,
    rx_cur: usize,
    rx_buffer_queue: VecDeque<RxDone<B>>,
    irq_enabled: bool,
}

impl<B> GmacNic<B> {
    /// Index of the next transmit descriptor to use.
    pub closed spec fn head(&self) -> usize {
        self.tx_head
    }

    /// Index of the next transmit descriptor to reclaim.
    pub closed spec fn tail(&self) -> usize {
        self.tx_tail
    }

    /// The buffers of the transmit descriptors.
    pub closed spec fn tx_slots(&self) -> Seq<Option<B>> {
        self.tx_buffers@
    }

    /// Index of the current receive descriptor.
    pub closed spec fn rx_index(&self) -> usize {
        self.rx_cur
    }

    /// The buffers of the receive descriptors.
    pub closed spec fn rx_slots(&self) -> Seq<Option<B>> {
        self.rx_buffers@
    }

    /// Frames received and not yet handed out.
    pub closed spec fn queued(&self) -> Seq<RxDone<B>> {
        self.rx_buffer_queue@
    }

    /// The MAC address.
    pub closed spec fn mac(&self) -> [u8; 6] {
        self.mac_addr
    }

    /// Base address of the register window.
    pub closed spec fn base(&self) -> usize {
        self.base_vaddr
    }

    /// Descriptor ring allocations: `((tx_paddr, tx_pages), (rx_paddr, rx_pages))`.
    pub closed spec fn rings(&self) -> ((usize, usize), (usize, usize)) {
        ((self.tx_desc_paddr, self.tx_desc_pages), (self.rx_desc_paddr, self.rx_desc_pages))
    }

    /// The transmit ring holds a buffer exactly for the descriptors in
    /// flight, the receive ring has one slot per descriptor.
    pub open spec fn wf(&self) -> bool {
        &&& ring_wf(self.tx_slots(), TX_RING_SIZE as int, self.tail() as int, self.head() as int)
        &&& self.rx_slots().len() == RX_RING_SIZE
        &&& self.rx_index() < RX_RING_SIZE
    }

    /// Check the register base address.
    pub fn check_base(base_vaddr: usize) -> (r: DevResult)
        ensures
            base_vaddr == 0 <==> r == Err::<(), DevError>(DevError::InvalidParam),
            r matches Err(e) ==> e == DevError::InvalidParam,
    {
        if base_vaddr == 0 {
            return Err(DevError::InvalidParam);
        }
        Ok(())
    }

    /// Software reset: set the reset bit of the DMA bus mode register and
    /// poll, 1000 times at most, for the engine to clear it.
    pub fn software_reset<R: Fn(&GmacRegs, usize) -> u32, W: Fn(&GmacRegs, usize, u32)>(regs: &GmacRegs, read: &R, write: &W) -> (r: DevResult)
        requires
            forall|g: &GmacRegs, off: usize| #[trigger] read.requires((g, off)),
            forall|g: &GmacRegs, off: usize, v: u32| #[trigger] write.requires((g, off, v)),
        ensures
            // Counted from the window's count: the reset bit written, then the polls
            write.ensures((&gmac_regs_at(regs.base, regs.step()), DMA_BUS_MODE, DMA_BUS_MODE_SWR), ()),
            r is Ok ==> exists|n: int| #[trigger] reset_done(read, write, regs.base, regs.step(), n),
            r matches Err(e) ==> e == DevError::BadState
                && reg_polls_set(read, regs.base, regs.step() + 1, RESET_POLLS as int, DMA_BUS_MODE, DMA_BUS_MODE_SWR),
    {
        let ghost b = regs.base;
        let ghost k = regs.step();
        let mut w = *regs;
        write(&w, DMA_BUS_MODE, DMA_BUS_MODE_SWR);
        assert(write.ensures((&gmac_regs_at(b, k), DMA_BUS_MODE, DMA_BUS_MODE_SWR), ()));
        w = w.next();
        let mut n: u32 = 0;
        while n < RESET_POLLS
            invariant
                n <= RESET_POLLS,
                b == regs.base && k == regs.step(),
                w == gmac_regs_at(b, k + 1 + n),
                forall|g: &GmacRegs, off: usize| #[trigger] read.requires((g, off)),
                write.ensures((&gmac_regs_at(b, k), DMA_BUS_MODE, DMA_BUS_MODE_SWR), ()),
                reg_polls_set(read, b, k + 1, n as int, DMA_BUS_MODE, DMA_BUS_MODE_SWR),
            decreases RESET_POLLS - n,
        {
            let v = read(&w, DMA_BUS_MODE);
            assert(read.ensures((&gmac_regs_at(b, k + 1 + n), DMA_BUS_MODE), v));
            if (v & DMA_BUS_MODE_SWR) == 0 {
                assert(reg_polls_set(read, b, k + 1, n as int, DMA_BUS_MODE, DMA_BUS_MODE_SWR));
                assert(reset_done(read, write, b, k, n as int));
                return Ok(());
            }
            assert(reg_poll_set(read, b, k + 1, n as int, DMA_BUS_MODE, DMA_BUS_MODE_SWR));
            w = w.next();
            n = n + 1;
        }
        Err(DevError::BadState)
    }

    /// The MAC address held in MAC_ADDRESS0.
    pub fn mac_from_regs(low: u32, high: u32) -> (mac: [u8; 6])
        ensures
            mac == mac_of(low, high),
    {
        let mac = [
            (low & 0xFF) as u8,
            ((low >> 8) & 0xFF) as u8,
            ((low >> 16) & 0xFF) as u8,
            ((low >> 24) & 0xFF) as u8,
            (high & 0xFF) as u8,
            ((high >> 8) & 0xFF) as u8,
        ];
        assert(mac@ =~= mac_of(low, high)@);
        mac
    }

    /// Whether a MAC address is all zeros or all ones.
    pub fn is_invalid_mac(mac: &[u8; 6]) -> (r: bool)
        ensures
            r == mac_invalid(*mac),
    {
        let all_zero = mac[0] == 0 && mac[1] == 0 && mac[2] == 0 && mac[3] == 0 && mac[4] == 0 && mac[5] == 0;
        let all_ones = mac[0] == 0xFF && mac[1] == 0xFF && mac[2] == 0xFF && mac[3] == 0xFF && mac[4] == 0xFF && mac[5] == 0xFF;
        assert(all_zero <==> mac@ == seq![0u8, 0, 0, 0, 0, 0]) by {
            if mac@ == seq![0u8, 0, 0, 0, 0, 0] {
                assert(mac@[0] == 0 && mac@[1] == 0 && mac@[2] == 0 && mac@[3] == 0 && mac@[4] == 0 && mac@[5] == 0);
            }
            if all_zero {
                assert(mac@ =~= seq![0u8, 0, 0, 0, 0, 0]);
            }
        }
        assert(all_ones <==> mac@ == seq![0xFFu8, 0xFF, 0xFF, 0xFF, 0xFF, 0xFF]) by {
            if mac@ == seq![0xFFu8, 0xFF, 0xFF, 0xFF, 0xFF, 0xFF] {
                assert(mac@[0] == 0xFF && mac@[1] == 0xFF && mac@[2] == 0xFF && mac@[3] == 0xFF && mac@[4] == 0xFF && mac@[5] == 0xFF);
            }
            if all_ones {
                assert(mac@ =~= seq![0xFFu8, 0xFF, 0xFF, 0xFF, 0xFF, 0xFF]);
            }
        }
        all_zero || all_ones
    }

    /// Read the MAC address; when it is all zeros or all ones, program the
    /// locally administered address 02:00:00:00:00:01 into the registers
    /// and use it.
    pub fn read_mac<R: Fn(&GmacRegs, usize) -> u32, W: Fn(&GmacRegs, usize, u32)>(regs: &GmacRegs, read: &R, write: &W) -> (mac: [u8; 6])
        requires
            forall|g: &GmacRegs, off: usize| #[trigger] read.requires((g, off)),
            forall|g: &GmacRegs, off: usize, v: u32| #[trigger] write.requires((g, off, v)),
        ensures
            // Counted from the window's count: the low word read, the high word
            // read, then (for an invalid address) the two default words written
            exists|m: int| #[trigger] mac_read_from(read, write, regs.base, regs.step(), mac, m),
    {
        let mut w = *regs;
        let mac_low = read(&w, MAC_ADDRESS0_LOW);
        w = w.next();
        let mac_high = read(&w, MAC_ADDRESS0_HIGH);
        w = w.next();
        let mac_addr = Self::mac_from_regs(mac_low, mac_high);
        if Self::is_invalid_mac(&mac_addr) {
            // Locally administered address 02:00:00:00:00:01
            write(&w, MAC_ADDRESS0_LOW, 0x0000_0002);
            w = w.next();
            write(&w, MAC_ADDRESS0_HIGH, 0x0000_0100);
            let fallback: [u8; 6] = [0x02, 0x00, 0x00, 0x00, 0x00, 0x01];
            assert(fallback@ =~= default_mac()@);
            assert(mac_read_from(read, write, regs.base, regs.step(), fallback, 4));
            return fallback;
        }
        assert(mac_read_from(read, write, regs.base, regs.step(), mac_addr, 2));
        mac_addr
    }

    /// Allocate the DMA memory of a ring of `count` descriptors, by the call
    /// numbered `calls`: `(vaddr, paddr, pages)`; `NoMemory` when either
    /// address is null.
    pub fn alloc_ring<K: KernelFunc>(count: usize, calls: &mut CallNo) -> (r: DevResult<(usize, usize, usize)>)
        requires
            count * DESC_SIZE + PAGE_SIZE - 1 <= usize::MAX,
        ensures
            *final(calls) == call_no(old(calls).count() + 1),
            r matches Ok((v, p, n)) ==> v != 0 && p != 0 && n == ring_page_count(count as int)
                && dma_gave::<K>(old(calls).count(), n, v, p),
            r matches Err(e) ==> e == DevError::NoMemory && exists|v: usize, p: usize|
                #[trigger] dma_gave::<K>(old(calls).count(), ring_page_count(count as int) as usize, v, p) && (v == 0 || p == 0),
    {
        let ghost c = calls.count();
        let pages = Self::ring_pages(count);
        let (vaddr, paddr) = K::dma_alloc_coherent(pages, &*calls);
        assert(dma_gave::<K>(c, pages, vaddr, paddr));
        calls.advance();
        if vaddr == 0 || paddr == 0 {
            assert(ring_page_count(count as int) as usize == pages);
            return Err(DevError::NoMemory);
        }
        Ok((vaddr, paddr, pages))
    }

    /// Allocate the TX ring, then the RX ring, one call each (numbered from
    /// `calls`); when the RX ring cannot be had, the TX ring is freed by
    /// the next call. Returns both `(vaddr, paddr, pages)`.
    pub fn alloc_rings<K: KernelFunc>(calls: &mut CallNo) -> (r: DevResult<((usize, usize, usize), (usize, usize, usize))>)
        ensures
            r matches Ok((t, x)) ==> rings_allocated::<K>(old(calls).count(), t, x)
                && *final(calls) == call_no(old(calls).count() + 2),
            r matches Err(e) ==> e == DevError::NoMemory && rings_failed::<K>(old(calls).count()),
    {
        let ghost c = calls.count();
        let tx = Self::alloc_ring::<K>(TX_RING_SIZE, calls)?;
        match Self::alloc_ring::<K>(RX_RING_SIZE, calls) {
            Ok(rx) => Ok((tx, rx)),
            Err(e) => {
                K::dma_free_coherent(tx.0, tx.2, &*calls);
                assert(dma_freed::<K>(c + 2, tx.0, tx.2));
                calls.advance();
                Err(e)
            },
        }
    }

    /// Number of pages for a ring of `count` descriptors.
    pub fn ring_pages(count: usize) -> (n: usize)
        requires
            count * DESC_SIZE + PAGE_SIZE - 1 <= usize::MAX,
        ensures
            n == (count * DESC_SIZE + PAGE_SIZE - 1) / (PAGE_SIZE as int),
    {
        (count * DESC_SIZE + (PAGE_SIZE - 1)) / PAGE_SIZE
    }

    /// Physical address of the descriptor after descriptor `i` of a
    /// chained ring of `n` descriptors at `paddr`.
    pub fn next_desc(paddr: usize, i: usize, n: usize) -> (a: u32)
        requires
            i < n,
            paddr + n * DESC_SIZE <= usize::MAX,
        ensures
            a == next_desc_paddr(paddr, i as int, n as int),
    {
        if i == n - 1 {
            paddr as u32
        } else {
            (paddr + (i + 1) * DESC_SIZE) as u32
        }
    }

    /// Initialize the TX descriptors in chained mode: each one empty, owned
    /// by the CPU, pointing at the next (the last at the first).
    pub fn init_tx_ring(tx_ring: &mut [TxDesc], tx_desc_paddr: usize)
        requires
            old(tx_ring)@.len() == TX_RING_SIZE,
            tx_desc_paddr + TX_RING_SIZE * DESC_SIZE <= usize::MAX,
        ensures
            final(tx_ring)@.len() == TX_RING_SIZE,
            forall|i: int| 0 <= i < TX_RING_SIZE ==> #[trigger] final(tx_ring)@[i] == (TxDesc {
                tdes0: TxDesc::TCH,
                tdes3: next_desc_paddr(tx_desc_paddr, i, TX_RING_SIZE as int),
                ..TxDesc::zeroed()
            }),
    {
        let mut i: usize = 0;
        while i < TX_RING_SIZE
            invariant
                i <= TX_RING_SIZE,
                tx_ring@.len() == TX_RING_SIZE,
                tx_desc_paddr + TX_RING_SIZE * DESC_SIZE <= usize::MAX,
                forall|j: int| 0 <= j < i ==> #[trigger] tx_ring@[j] == (TxDesc {
                    tdes0: TxDesc::TCH,
                    tdes3: next_desc_paddr(tx_desc_paddr, j, TX_RING_SIZE as int),
                    ..TxDesc::zeroed()
                }),
            decreases TX_RING_SIZE - i,
        {
            let next = Self::next_desc(tx_desc_paddr, i, TX_RING_SIZE);
            let mut d = TxDesc::new();
            d.set_next_desc(next);
            d.tdes0 = TxDesc::TCH;
            tx_ring[i] = d;
            i = i + 1;
        }
    }

    /// Initialize the RX descriptors in chained mode, each with a buffer
    /// from `alloc_buf` (`buf_vaddr` gives its memory address) and handed to
    /// the DMA engine. The first buffer that cannot be had stops with
    /// `NoMemory`.
    pub fn init_rx_ring<K: KernelFunc, A: Fn() -> Option<B>, V: Fn(&B) -> usize>(rx_ring: &mut [RxDesc], rx_desc_paddr: usize, alloc_buf: &A, buf_vaddr: &V) -> (r: DevResult<Vec<Option<B>>>)
        requires
            old(rx_ring)@.len() == RX_RING_SIZE,
            rx_desc_paddr + RX_RING_SIZE * DESC_SIZE <= usize::MAX,
            alloc_buf.requires(()),
            forall|b: &B| #[trigger] buf_vaddr.requires((b,)),
        ensures
            final(rx_ring)@.len() == RX_RING_SIZE,
            r matches Err(e) ==> e == DevError::NoMemory && alloc_buf.ensures((), None::<B>),
            r matches Ok(v) ==> v@.len() == RX_RING_SIZE && forall|i: int| 0 <= i < RX_RING_SIZE ==>
                rx_armed::<K, B, A, V>(alloc_buf, buf_vaddr, #[trigger] v@[i], final(rx_ring)@[i],
                    next_desc_paddr(rx_desc_paddr, i, RX_RING_SIZE as int)),
    {
        let mut rx_buffers: Vec<Option<B>> = Vec::new();
        let mut i: usize = 0;
        while i < RX_RING_SIZE
            invariant
                i <= RX_RING_SIZE,
                rx_ring@.len() == RX_RING_SIZE,
                rx_buffers@.len() == i,
                rx_desc_paddr + RX_RING_SIZE * DESC_SIZE <= usize::MAX,
                alloc_buf.requires(()),
                forall|b: &B| #[trigger] buf_vaddr.requires((b,)),
                forall|j: int| 0 <= j < i ==> rx_armed::<K, B, A, V>(alloc_buf, buf_vaddr, #[trigger] rx_buffers@[j], rx_ring@[j],
                    next_desc_paddr(rx_desc_paddr, j, RX_RING_SIZE as int)),
            decreases RX_RING_SIZE - i,
        {
            let buf = match alloc_buf() {
                Some(b) => b,
                None => return Err(DevError::NoMemory),
            };
            let va = buf_vaddr(&buf);
            let pa = K::virt_to_phys(va);
            let buf_paddr = pa as u32;
            let next = Self::next_desc(rx_desc_paddr, i, RX_RING_SIZE);
            let mut d = rx_ring[i];
            d.setup_rx(buf_paddr, RX_BUFFER_SIZE as u32, next);
            rx_ring[i] = d;
            rx_buffers.push(Some(buf));
            assert(phys_of::<K>(va, pa));
            assert(rx_armed::<K, B, A, V>(alloc_buf, buf_vaddr, rx_buffers@[i as int], rx_ring@[i as int],
                next_desc_paddr(rx_desc_paddr, i as int, RX_RING_SIZE as int)));
            i = i + 1;
        }
        Ok(rx_buffers)
    }

    /// The register writes that configure the DMA and the MAC, in order.
    pub fn configuration_writes(tx_desc_paddr: usize, rx_desc_paddr: usize) -> (w: Vec<(usize, u32)>)
        ensures
            w@ == config_writes(tx_desc_paddr, rx_desc_paddr),
    {
        let mut w: Vec<(usize, u32)> = Vec::new();
        w.push((DMA_TX_DESC_LIST_ADDR, tx_desc_paddr as u32));
        w.push((DMA_RX_DESC_LIST_ADDR, rx_desc_paddr as u32));
        w.push((DMA_BUS_MODE, DMA_BUS_MODE_PBL_8 | DMA_BUS_MODE_FB | DMA_BUS_MODE_AAL | DMA_BUS_MODE_USP));
        w.push((DMA_OPERATION_MODE, DMA_OP_MODE_TSF | DMA_OP_MODE_RSF | DMA_OP_MODE_FUF));
        w.push((MAC_CONFIGURATION, MAC_CONFIG_TE | MAC_CONFIG_RE | MAC_CONFIG_DM | MAC_CONFIG_IPC | MAC_CONFIG_ACS | MAC_CONFIG_DO));
        w.push((MAC_FRAME_FILTER, MAC_FILTER_RA));
        w.push((DMA_INTERRUPT_ENABLE, 0));
        assert(w@ =~= config_writes(tx_desc_paddr, rx_desc_paddr));
        w
    }

    /// Start the DMA engine (transmission and reception) given the current
    /// operation mode register value: the write to perform.
    pub fn start_dma(regs: &GmacRegs, op_mode: u32) -> (w: RegWrite)
        requires
            regs.base + DMA_OPERATION_MODE <= usize::MAX,
        ensures
            w.addr == regs.base + DMA_OPERATION_MODE,
            w.value == op_mode | (DMA_OP_MODE_ST | DMA_OP_MODE_SR),
    {
        regs.set_bits(DMA_OPERATION_MODE, op_mode, DMA_OP_MODE_ST | DMA_OP_MODE_SR)
    }

    /// The controller state after initialization: nothing in flight, the
    /// receive ring holding `rx_buffers`, interrupts disabled.
    pub fn new(base_vaddr: usize, mac_addr: [u8; 6], tx_desc_paddr: usize, tx_desc_pages: usize, rx_desc_paddr: usize, rx_desc_pages: usize, rx_buffers: Vec<Option<B>>) -> (nic: Self)
        requires
            rx_buffers@.len() == RX_RING_SIZE,
        ensures
            nic.wf(),
            nic.head() == 0 && nic.tail() == 0 && nic.rx_index() == 0,
            nic.rx_slots() == rx_buffers@,
            nic.queued().len() == 0,
            nic.mac() == mac_addr && nic.base() == base_vaddr,
            nic.rings() == ((tx_desc_paddr, tx_desc_pages), (rx_desc_paddr, rx_desc_pages)),
    {
        let mut tx_buffers: Vec<Option<B>> = Vec::new();
        let mut i: usize = 0;
        while i < TX_RING_SIZE
            invariant
                i <= TX_RING_SIZE,
                tx_buffers@.len() == i,
                forall|j: int| 0 <= j < i ==> (#[trigger] tx_buffers@[j]) is None,
            decreases TX_RING_SIZE - i,
        {
            tx_buffers.push(None);
            i = i + 1;
        }
        GmacNic {
            base_vaddr,
            mac_addr,
            tx_desc_paddr,
            tx_desc_pages,
            tx_buffers,
            tx_head: 0,
            tx_tail: 0,
            rx_desc_paddr,
            rx_desc_pages,
            rx_buffers,
            rx_cur: 0,
            rx_buffer_queue: VecDeque::new(),
            irq_enabled: false,
        }
    }

    /// The first part of initialization: check the base address, reset the
    /// controller, read the MAC address (the default one for an invalid
    /// address) and allocate the two descriptor rings, in that order (the
    /// allocations are the kernel calls numbered from `calls`). The window
    /// returned counts the register accesses made, for `bring_up`.
    pub fn prepare<K, R, W>(base_vaddr: usize, read: &R, write: &W, calls: &mut CallNo) -> (r: DevResult<GmacPrepared>)
        where K: KernelFunc, R: Fn(&GmacRegs, usize) -> u32, W: Fn(&GmacRegs, usize, u32),
        requires
            forall|g: &GmacRegs, off: usize| #[trigger] read.requires((g, off)),
            forall|g: &GmacRegs, off: usize, v: u32| #[trigger] write.requires((g, off, v)),
        ensures
            base_vaddr == 0 <==> r == Err::<GmacPrepared, DevError>(DevError::InvalidParam),
            r matches Err(e) ==> e == DevError::InvalidParam || e == DevError::BadState || e == DevError::NoMemory,
            // The reset never completed: nothing after the polls
            r == Err::<GmacPrepared, DevError>(DevError::BadState) ==>
                write.ensures((&gmac_regs_at(base_vaddr, 0), DMA_BUS_MODE, DMA_BUS_MODE_SWR), ())
                && reg_polls_set(read, base_vaddr, 1, RESET_POLLS as int, DMA_BUS_MODE, DMA_BUS_MODE_SWR),
            // The rings could not be had after the reset and the MAC address
            r == Err::<GmacPrepared, DevError>(DevError::NoMemory) ==> rings_failed::<K>(old(calls).count())
                && exists|n: int, mac: [u8; 6], m: int| #[trigger] reset_done(read, write, base_vaddr, 0, n)
                    && #[trigger] mac_read_from(read, write, base_vaddr, 2 + n, mac, m),
            // Done: reset, MAC address, rings; the window after those accesses
            r matches Ok(p) ==> rings_allocated::<K>(old(calls).count(), p.tx, p.rx)
                && exists|n: int, mac: [u8; 6], m: int| #[trigger] reset_done(read, write, base_vaddr, 0, n)
                    && #[trigger] mac_read_from(read, write, base_vaddr, 2 + n, mac, m)
                    && mac == p.mac && p.regs == gmac_regs_at(base_vaddr, 2 + n + m),
    {
        if base_vaddr == 0 {
            return Err(DevError::InvalidParam);
        }
        let regs = GmacRegs::new(base_vaddr);
        assert(regs.base == base_vaddr && regs.step() == 0);
        match Self::software_reset(&regs, read, write) {
            Ok(()) => {},
            Err(e) => {
                assert(reg_polls_set(read, base_vaddr, 1, RESET_POLLS as int, DMA_BUS_MODE, DMA_BUS_MODE_SWR));
                return Err(e);
            },
        }
        let ghost n = choose|n: int| #[trigger] reset_done(read, write, base_vaddr, 0, n);
        let after_reset = GmacRegs::at_access(base_vaddr, Ghost(2 + n));
        let mac = Self::read_mac(&after_reset, read, write);
        let ghost m = choose|m: int| #[trigger] mac_read_from(read, write, base_vaddr, 2 + n, mac, m);
        let ghost c = calls.count();
        let (tx, rx) = match Self::alloc_rings::<K>(calls) {
            Ok(rings) => rings,
            Err(e) => {
                assert(reset_done(read, write, base_vaddr, 0, n) && mac_read_from(read, write, base_vaddr, 2 + n, mac, m));
                return Err(e);
            },
        };
        let regs = GmacRegs::at_access(base_vaddr, Ghost(2 + n + m));
        assert(reset_done(read, write, base_vaddr, 0, n) && mac_read_from(read, write, base_vaddr, 2 + n, mac, m));
        let p = GmacPrepared { regs, mac, tx, rx };
        assert(mac_read_from(read, write, base_vaddr, 2 + n, p.mac, m));
        assert(p.regs == gmac_regs_at(base_vaddr, 2 + n + m));
        assert(rings_allocated::<K>(c, p.tx, p.rx));
        Ok(p)
    }

    /// Bring the controller up once its rings are allocated (`tx` and `rx`:
    /// `(vaddr, paddr, pages)`, `tx_ring` and `rx_ring` their descriptors):
    /// set the transmit ring up, the receive ring with a buffer per
    /// descriptor (`NoMemory`, with no register access, when `alloc_buf`
    /// gives none), then, in order, the configuration writes, the DMA start
    /// (operation mode read, then written with the start bits) and the
    /// clearing of the pending status (read, then written back).
    pub fn bring_up<K, A, V, R, W>(
        regs: &GmacRegs,
        mac_addr: [u8; 6],
        tx_ring: &mut [TxDesc],
        rx_ring: &mut [RxDesc],
        tx: (usize, usize, usize),
        rx: (usize, usize, usize),
        alloc_buf: &A,
        buf_vaddr: &V,
        read: &R,
        write: &W,
    ) -> (r: DevResult<Self>)
        where K: KernelFunc, A: Fn() -> Option<B>, V: Fn(&B) -> usize, R: Fn(&GmacRegs, usize) -> u32,
              W: Fn(&GmacRegs, usize, u32),
        requires
            old(tx_ring)@.len() == TX_RING_SIZE,
            old(rx_ring)@.len() == RX_RING_SIZE,
            tx.1 + TX_RING_SIZE * DESC_SIZE <= usize::MAX,
            rx.1 + RX_RING_SIZE * DESC_SIZE <= usize::MAX,
            alloc_buf.requires(()),
            forall|b: &B| #[trigger] buf_vaddr.requires((b,)),
            forall|g: &GmacRegs, off: usize| #[trigger] read.requires((g, off)),
            forall|g: &GmacRegs, off: usize, v: u32| #[trigger] write.requires((g, off, v)),
        ensures
            final(tx_ring)@.len() == TX_RING_SIZE,
            final(rx_ring)@.len() == RX_RING_SIZE,
            r matches Err(e) ==> e == DevError::NoMemory && alloc_buf.ensures((), None::<B>),
            // The rings
            r is Ok ==> forall|i: int| 0 <= i < TX_RING_SIZE ==> #[trigger] final(tx_ring)@[i] == (TxDesc {
                tdes0: TxDesc::TCH,
                tdes3: next_desc_paddr(tx.1, i, TX_RING_SIZE as int),
                ..TxDesc::zeroed()
            }),
            r matches Ok(nic) ==> forall|i: int| 0 <= i < RX_RING_SIZE ==> rx_armed::<K, B, A, V>(alloc_buf, buf_vaddr,
                #[trigger] nic.rx_slots()[i], final(rx_ring)@[i], next_desc_paddr(rx.1, i, RX_RING_SIZE as int)),
            r matches Ok(nic) ==> nic.wf() && nic.head() == 0 && nic.tail() == 0 && nic.rx_index() == 0
                && nic.queued().len() == 0 && nic.mac() == mac_addr && nic.base() == regs.base
                && nic.rings() == ((tx.1, tx.2), (rx.1, rx.2)),
            // The register accesses, counted from the window's count
            r is Ok ==> forall|j: int| 0 <= j < 7 ==> write.ensures((&gmac_regs_at(regs.base, regs.step() + j),
                #[trigger] config_writes(tx.1, rx.1)[j].0, config_writes(tx.1, rx.1)[j].1), ()),
            r is Ok ==> exists|op: u32| #[trigger] read.ensures((&gmac_regs_at(regs.base, regs.step() + 7), DMA_OPERATION_MODE), op)
                && write.ensures((&gmac_regs_at(regs.base, regs.step() + 8), DMA_OPERATION_MODE,
                    op | (DMA_OP_MODE_ST | DMA_OP_MODE_SR)), ()),
            r is Ok ==> exists|st: u32| #[trigger] read.ensures((&gmac_regs_at(regs.base, regs.step() + 9), DMA_STATUS), st)
                && write.ensures((&gmac_regs_at(regs.base, regs.step() + 10), DMA_STATUS, st), ()),
    {
        let ghost b = regs.base;
        let ghost k = regs.step();
        Self::init_tx_ring(tx_ring, tx.1);
        let rx_buffers = match Self::init_rx_ring::<K, A, V>(rx_ring, rx.1, alloc_buf, buf_vaddr) {
            Ok(v) => v,
            Err(e) => return Err(e),
        };
        // Configure the DMA and the MAC, in order
        let writes = Self::configuration_writes(tx.1, rx.1);
        let mut w = *regs;
        let mut i: usize = 0;
        while i < writes.len()
            invariant
                i <= writes@.len(),
                writes@ == config_writes(tx.1, rx.1),
                b == regs.base && k == regs.step(),
                w == gmac_regs_at(b, k + i),
                forall|g: &GmacRegs, off: usize, v: u32| #[trigger] write.requires((g, off, v)),
                forall|j: int| 0 <= j < i ==> write.ensures((&gmac_regs_at(b, k + j),
                    #[trigger] config_writes(tx.1, rx.1)[j].0, config_writes(tx.1, rx.1)[j].1), ()),
            decreases writes@.len() - i,
        {
            let (offset, value) = writes[i];
            write(&w, offset, value);
            assert(write.ensures((&gmac_regs_at(b, k + i), config_writes(tx.1, rx.1)[i as int].0,
                config_writes(tx.1, rx.1)[i as int].1), ()));
            w = w.next();
            i = i + 1;
        }
        // Start the DMA engine: transmission and reception
        let op = read(&w, DMA_OPERATION_MODE);
        assert(read.ensures((&gmac_regs_at(b, k + 7), DMA_OPERATION_MODE), op));
        w = w.next();
        write(&w, DMA_OPERATION_MODE, op | (DMA_OP_MODE_ST | DMA_OP_MODE_SR));
        assert(write.ensures((&gmac_regs_at(b, k + 8), DMA_OPERATION_MODE, op | (DMA_OP_MODE_ST | DMA_OP_MODE_SR)), ()));
        w = w.next();
        // Clear any pending status
        let status = read(&w, DMA_STATUS);
        assert(read.ensures((&gmac_regs_at(b, k + 9), DMA_STATUS), status));
        w = w.next();
        write(&w, DMA_STATUS, status);
        assert(write.ensures((&gmac_regs_at(b, k + 10), DMA_STATUS, status), ()));
        let nic = Self::new(regs.base, mac_addr, tx.1, tx.2, rx.1, rx.2, rx_buffers);
        Ok(nic)
    }

    /// Interrupt mode is not implemented (polling mode).
    pub fn enable_interrupts(&mut self, _rx_irq: usize, _tx_irq: usize) -> (r: DevResult)
        ensures
            r == Err::<(), DevError>(DevError::Unsupported),
            *final(self) == *old(self),
    {
        Err(DevError::Unsupported)
    }

    /// Read and clear the DMA status register whose value is `status`: the
    /// write to perform.
    pub fn check_and_clear_interrupts(&mut self, status: u32) -> (w: RegWrite)
        requires
            old(self).base() + DMA_STATUS <= usize::MAX,
        ensures
            w.addr == old(self).base() + DMA_STATUS,
            w.value == status,
            *final(self) == *old(self),
    {
        let regs = GmacRegs::new(self.base_vaddr);
        regs.read_and_clear(DMA_STATUS, status)
    }

    /// Device name.
    pub fn device_name(&self) -> (s: &'static str)
        ensures
            s@ == "gmac"@,
    {
        "gmac"
    }

    /// No interrupt line is used (polling mode).
    pub fn irq_number(&self) -> (n: Option<u32>)
        ensures
            n is None,
    {
        None
    }

    /// The MAC address.
    pub fn mac_address(&self) -> (mac: EthernetAddress)
        ensures
            mac.0 == self.mac(),
    {
        EthernetAddress(self.mac_addr)
    }

    /// Whether a frame can be queued: the ring is not full and the head
    /// descriptor belongs to the CPU.
    pub fn can_transmit(&self, tx_ring: &[TxDesc]) -> (r: bool)
        requires
            self.wf(),
            tx_ring@.len() == TX_RING_SIZE,
        ensures
            r == (next_slot(self.head() as int, TX_RING_SIZE as int) != self.tail()
                && !tx_ring@[self.head() as int].owned_by_dma()),
    {
        let next_head = (self.tx_head + 1) % TX_RING_SIZE;
        if next_head == self.tx_tail {
            return false;
        }
        !tx_ring[self.tx_head].is_owned_by_dma()
    }

    /// Whether a frame can be taken: one is queued, or the DMA engine has
    /// given the current receive descriptor back.
    pub fn can_receive(&self, rx_ring: &[RxDesc]) -> (r: bool)
        requires
            self.wf(),
            rx_ring@.len() == RX_RING_SIZE,
        ensures
            r == (self.queued().len() > 0 || !rx_ring@[self.rx_index() as int].owned_by_dma()),
    {
        if self.rx_buffer_queue.len() != 0 {
            return true;
        }
        !rx_ring[self.rx_cur].is_owned_by_dma()
    }

    /// Receive queue size.
    pub fn rx_queue_size(&self) -> (n: usize)
        ensures
            n == RX_RING_SIZE,
    {
        RX_RING_SIZE
    }

    /// Transmit queue size.
    pub fn tx_queue_size(&self) -> (n: usize)
        ensures
            n == TX_RING_SIZE,
    {
        TX_RING_SIZE
    }

    /// Reclaim completed TX descriptors: from the tail, release the buffer
    /// of every descriptor the DMA engine has given back, up to the first
    /// one it still owns or the head. Returns the number reclaimed.
    pub fn recycle_tx_buffers(&mut self, tx_ring: &[TxDesc]) -> (r: DevResult<usize>)
        requires
            old(self).wf(),
            tx_ring@.len() == TX_RING_SIZE,
        ensures
            final(self).wf(),
            r is Ok,
            final(self).head() == old(self).head(),
            final(self).tail() == final(self).head() || tx_ring@[final(self).tail() as int].owned_by_dma(),
            forall|i: int| 0 <= i < TX_RING_SIZE && in_flight(i, old(self).tail() as int, old(self).head() as int)
                && !in_flight(i, final(self).tail() as int, final(self).head() as int) ==> !tx_ring@[i].owned_by_dma(),
            forall|i: int| 0 <= i < TX_RING_SIZE && in_flight(i, final(self).tail() as int, final(self).head() as int)
                ==> #[trigger] final(self).tx_slots()[i] == old(self).tx_slots()[i],
            final(self).rx_slots() == old(self).rx_slots(),
            final(self).rx_index() == old(self).rx_index(),
            final(self).queued() == old(self).queued(),
    {
        let mut reclaimed: usize = 0;
        while self.tx_tail != self.tx_head
            invariant
                self.wf(),
                old(self).wf(),
                tx_ring@.len() == TX_RING_SIZE,
                self.tx_head == old(self).tx_head,
                self.rx_buffers@ == old(self).rx_buffers@,
                self.rx_cur == old(self).rx_cur,
                self.rx_buffer_queue@ == old(self).rx_buffer_queue@,
                reclaimed <= TX_RING_SIZE,
                reclaimed + crate::ring::in_flight_count(TX_RING_SIZE as int, self.tail() as int, self.head() as int)
                    == crate::ring::in_flight_count(TX_RING_SIZE as int, old(self).tail() as int, old(self).head() as int),
                forall|i: int| 0 <= i < TX_RING_SIZE && in_flight(i, old(self).tail() as int, old(self).head() as int)
                    && !in_flight(i, self.tail() as int, self.head() as int) ==> !tx_ring@[i].owned_by_dma(),
                forall|i: int| 0 <= i < TX_RING_SIZE && in_flight(i, self.tail() as int, self.head() as int)
                    ==> #[trigger] self.tx_slots()[i] == old(self).tx_slots()[i],
                in_flight(self.tail() as int, old(self).tail() as int, old(self).head() as int) || self.tail() == self.head(),
            ensures
                self.tx_tail == self.tx_head || tx_ring@[self.tx_tail as int].owned_by_dma(),
            decreases crate::ring::in_flight_count(TX_RING_SIZE as int, self.tail() as int, self.head() as int),
        {
            if tx_ring[self.tx_tail].is_owned_by_dma() {
                break;
            }
            let ghost t = self.tx_tail as int;
            proof {
                lemma_reclaim_one(self.tx_buffers@, TX_RING_SIZE as int, t, self.tx_head as int);
                lemma_next_slot(t, TX_RING_SIZE as int);
                crate::ring::lemma_in_flight_bound(TX_RING_SIZE as int, old(self).tail() as int, old(self).head() as int);
            }
            // Free the buffer, advance the tail
            self.tx_buffers.set(self.tx_tail, None);
            self.tx_tail = (self.tx_tail + 1) % TX_RING_SIZE;
            reclaimed = reclaimed + 1;
        }
        Ok(reclaimed)
    }

    /// Queue the frame in `buf` (`buf_len` bytes at `buf_vaddr`): `Again`
    /// when the ring is full or its head is busy; otherwise the head
    /// descriptor gets the buffer address and size and is handed to the DMA
    /// engine as a single-buffer frame, the buffer kept until the
    /// descriptor is reclaimed. The caller then issues a TX poll demand.
    pub fn transmit<K: KernelFunc>(&mut self, tx_ring: &mut [TxDesc], buf: B, buf_len: usize, buf_vaddr: usize) -> (r: DevResult<usize>)
        requires
            old(self).wf(),
            old(tx_ring)@.len() == TX_RING_SIZE,
        ensures
            final(self).wf(),
            final(tx_ring)@.len() == TX_RING_SIZE,
            r matches Err(e) ==> e == DevError::Again,
            r is Err <==> !(next_slot(old(self).head() as int, TX_RING_SIZE as int) != old(self).tail()
                && !old(tx_ring)@[old(self).head() as int].owned_by_dma()),
            r is Err ==> final(tx_ring)@ == old(tx_ring)@ && *final(self) == *old(self),
            r matches Ok(idx) ==> idx == old(self).head()
                && final(self).head() == next_slot(idx as int, TX_RING_SIZE as int)
                && final(self).tail() == old(self).tail()
                && final(self).tx_slots()[idx as int] == Some(buf)
                && final(tx_ring)@[idx as int].owned_by_dma()
                && final(tx_ring)@[idx as int].tdes0 == TxDesc::OWN | TxDesc::FS | TxDesc::LS | TxDesc::TCH
                && final(tx_ring)@[idx as int].buf1_size() == (buf_len as u32) & TxDesc::TBS1_MASK
                && final(tx_ring)@[idx as int].tdes3 == old(tx_ring)@[idx as int].tdes3
                && (exists|pa: usize| #[trigger] phys_of::<K>(buf_vaddr, pa) && final(tx_ring)@[idx as int].tdes2 == pa as u32),
            r is Ok ==> forall|i: int| 0 <= i < TX_RING_SIZE && i != r->Ok_0 ==> #[trigger] final(tx_ring)@[i] == old(tx_ring)@[i],
            final(self).rx_slots() == old(self).rx_slots(),
            final(self).rx_index() == old(self).rx_index(),
    {
        if !self.can_transmit(tx_ring) {
            return Err(DevError::Again);
        }
        let idx = self.tx_head;
        let pa = K::virt_to_phys(buf_vaddr);
        assert(phys_of::<K>(buf_vaddr, pa));
        let buf_paddr = pa as u32;
        // Set the descriptor up for transmission
        let mut d = tx_ring[idx];
        d.set_buf1_addr(buf_paddr);
        d.set_buf1_size(buf_len as u32);
        d.tdes0 = TxDesc::OWN | TxDesc::FS | TxDesc::LS | TxDesc::TCH;
        tx_ring[idx] = d;
        proof {
            lemma_use_one(self.tx_buffers@, TX_RING_SIZE as int, self.tx_tail as int, idx as int, buf);
            lemma_next_slot(idx as int, TX_RING_SIZE as int);
            assert((0x8000_0000u32 | 0x1000_0000u32 | 0x2000_0000u32 | 0x0010_0000u32) & 0x8000_0000u32 != 0)
                by (bit_vector);
        }
        // Store the buffer for later reclaim
        self.tx_buffers.set(idx, Some(buf));
        // Advance head
        self.tx_head = (self.tx_head + 1) % TX_RING_SIZE;
        Ok(idx)
    }

    /// Whether `receive` may be called now: a good frame in the current
    /// descriptor must still have its buffer (the buffer of a descriptor is
    /// given up when `receive` found no new one).
    pub fn receive_allowed(&self, rx_ring: &[RxDesc]) -> (r: bool)
        requires
            self.wf(),
            rx_ring@.len() == RX_RING_SIZE,
        ensures
            r == (self.queued().len() == 0 && !rx_ring@[self.rx_index() as int].owned_by_dma()
                && !rx_ring@[self.rx_index() as int].error_summary()
                && rx_ring@[self.rx_index() as int].single_buffer_frame()
                ==> self.rx_slots()[self.rx_index() as int] is Some),
    {
        if self.rx_buffer_queue.len() != 0 {
            return true;
        }
        let d = &rx_ring[self.rx_cur];
        if d.is_owned_by_dma() || d.has_error() || !d.is_complete_frame() {
            return true;
        }
        self.rx_buffers[self.rx_cur].is_some()
    }

    /// Take a received frame. A queued frame comes first. Otherwise:
    /// `Again` while the DMA engine owns the current descriptor; an
    /// erroneous frame is dropped (descriptor handed back, poll demand) with
    /// `BadState`, as is a frame spread over several descriptors (no poll
    /// demand). A good frame's buffer is returned with the frame length
    /// less the 4-byte CRC; the descriptor gets the new buffer `new_buf`
    /// (`NoMemory` when there is none: the frame is then dropped and the
    /// descriptor left without buffer) and is handed back with a poll
    /// demand. The next descriptor is used next time.
    pub fn receive<K: KernelFunc>(&mut self, rx_ring: &mut [RxDesc], new_buf: Option<(B, usize)>) -> (r: RxResult<B>)
        requires
            old(self).wf(),
            old(rx_ring)@.len() == RX_RING_SIZE,
            old(self).queued().len() == 0 && !old(rx_ring)@[old(self).rx_index() as int].owned_by_dma()
                && !old(rx_ring)@[old(self).rx_index() as int].error_summary()
                && old(rx_ring)@[old(self).rx_index() as int].single_buffer_frame()
                ==> old(self).rx_slots()[old(self).rx_index() as int] is Some,
        ensures
            final(self).wf(),
            final(rx_ring)@.len() == RX_RING_SIZE,
            old(self).queued().len() > 0 ==> (r.result matches Ok(done) && done == old(self).queued()[0]
                && final(self).queued() == old(self).queued().drop_first() && !r.poll_demand
                && final(rx_ring)@ == old(rx_ring)@ && final(self).rx_index() == old(self).rx_index()),
            old(self).queued().len() == 0 ==> ({
                let i = old(self).rx_index() as int;
                let d = old(rx_ring)@[i];
                let advanced = final(self).rx_index() == next_slot(i, RX_RING_SIZE as int);
                &&& d.owned_by_dma() ==> r.result is Err && r.result->Err_0 == DevError::Again && !r.poll_demand
                    && final(rx_ring)@ == old(rx_ring)@ && final(self).rx_index() == old(self).rx_index()
                &&& !d.owned_by_dma() && d.error_summary() ==> r.result is Err && r.result->Err_0 == DevError::BadState
                    && r.poll_demand && advanced && final(rx_ring)@[i].owned_by_dma()
                &&& !d.owned_by_dma() && !d.error_summary() && !d.single_buffer_frame() ==> r.result is Err
                    && r.result->Err_0 == DevError::BadState && !r.poll_demand && advanced
                    && final(rx_ring)@[i].owned_by_dma()
                &&& !d.owned_by_dma() && !d.error_summary() && d.single_buffer_frame() ==> match new_buf {
                    None => r.result is Err && r.result->Err_0 == DevError::NoMemory && !r.poll_demand
                        && final(self).rx_slots()[i] is None && final(self).rx_index() == old(self).rx_index(),
                    Some((nb, nv)) => r.result matches Ok(done)
                        && Some(done.buf) == old(self).rx_slots()[i]
                        && done.len == (if d.frame_len() >= 4 { d.frame_len() - 4 } else { d.frame_len() as int })
                        && final(self).rx_slots()[i] == Some(nb) && r.poll_demand && advanced
                        && final(rx_ring)@[i].owned_by_dma() && final(rx_ring)@[i].rdes3 == d.rdes3
                        && (exists|pa: usize| #[trigger] phys_of::<K>(nv, pa)
                            && final(rx_ring)@[i] == RxDesc::rx_setup(pa as u32, RX_BUFFER_SIZE as u32, d.rdes3)),
                }
            }),
            final(self).tx_slots() == old(self).tx_slots(),
            final(self).head() == old(self).head(),
            final(self).tail() == old(self).tail(),
    {
        // A queued frame comes first
        if self.rx_buffer_queue.len() != 0 {
            let done = self.rx_buffer_queue.pop_front().unwrap();
            return RxResult { result: Ok(done), poll_demand: false };
        }
        let idx = self.rx_cur;
        let mut d = rx_ring[idx];
        if d.is_owned_by_dma() {
            return RxResult { result: Err(DevError::Again), poll_demand: false };
        }
        // Errors: recycle the descriptor
        if d.has_error() {
            d.set_owned_by_dma();
            rx_ring[idx] = d;
            self.rx_cur = (self.rx_cur + 1) % RX_RING_SIZE;
            return RxResult { result: Err(DevError::BadState), poll_demand: true };
        }
        // Fragmented frames are not supported
        if !d.is_complete_frame() {
            d.set_owned_by_dma();
            rx_ring[idx] = d;
            self.rx_cur = (self.rx_cur + 1) % RX_RING_SIZE;
            return RxResult { result: Err(DevError::BadState), poll_demand: false };
        }
        // Frame length includes the CRC
        let frame_len = d.frame_length();
        let packet_len = if frame_len >= 4 {
            frame_len - 4
        } else {
            frame_len
        };
        // Take the old buffer
        let mut taken: Option<B> = None;
        core::mem::swap(&mut taken, &mut self.rx_buffers[idx]);
        let old_buf = taken.unwrap();
        // The new buffer for this descriptor
        let (new_b, new_vaddr) = match new_buf {
            Some(p) => p,
            None => return RxResult { result: Err(DevError::NoMemory), poll_demand: false },
        };
        let new_pa = K::virt_to_phys(new_vaddr);
        assert(phys_of::<K>(new_vaddr, new_pa));
        let new_buf_paddr = new_pa as u32;
        let next_desc = d.rdes3;
        d.setup_rx(new_buf_paddr, RX_BUFFER_SIZE as u32, next_desc);
        rx_ring[idx] = d;
        self.rx_buffers.set(idx, Some(new_b));
        // Advance index
        self.rx_cur = (self.rx_cur + 1) % RX_RING_SIZE;
        RxResult { result: Ok(RxDone { buf: old_buf, len: packet_len }), poll_demand: true }
    }

    /// Descriptor ring allocations to free at shutdown:
    /// `((tx_paddr, tx_pages), (rx_paddr, rx_pages))`.
    pub fn ring_allocations(&self) -> (r: ((usize, usize), (usize, usize)))
        ensures
            r == self.rings(),
    {
        ((self.tx_desc_paddr, self.tx_desc_pages), (self.rx_desc_paddr, self.rx_desc_pages))
    }

    /// The register writes that stop the controller at shutdown, given the
    /// current DMA operation mode and MAC configuration: stop TX/RX DMA,
    /// disable transmitter and receiver.
    pub fn shutdown_writes(&self, op_mode: u32, mac_config: u32) -> (w: (RegWrite, RegWrite))
        requires
            self.base() + MAC_CONFIGURATION <= usize::MAX,
            self.base() + DMA_OPERATION_MODE <= usize::MAX,
        ensures
            w.0.addr == self.base() + DMA_OPERATION_MODE,
            w.0.value == op_mode & !(DMA_OP_MODE_ST | DMA_OP_MODE_SR),
            w.1.addr == self.base() + MAC_CONFIGURATION,
            w.1.value == mac_config & !(MAC_CONFIG_TE | MAC_CONFIG_RE),
    {
        let regs = GmacRegs::new(self.base_vaddr);
        (
            regs.clear_bits(DMA_OPERATION_MODE, op_mode, DMA_OP_MODE_ST | DMA_OP_MODE_SR),
            regs.clear_bits(MAC_CONFIGURATION, mac_config, MAC_CONFIG_TE | MAC_CONFIG_RE),
        )
    }
}

} // verus!
