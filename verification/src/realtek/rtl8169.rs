//! RTL8169/RTL8168/RTL8111 Gigabit Ethernet driver: rings of 128
//! descriptors, each with its own 2 KiB DMA buffer.
use vstd::prelude::*;

use super::common::{
    alloc_failed, allocated, apply_writes, dma_freed, dma_gave, slot_freed, group_mmio, padded_size, mem_read_gave, mem_wrote, mmio_at, polls8_set, read8_clear,
    read8_gave, slot_from, wrote, wrote_in_order, DeviceIo, DmaBuffer, DmaBufferArray, IoWrite, MmioOps,
    RealtekCommon, allocated_up_to, pages_needed, slot_allocated,
};
use super::device_info::RealtekSeries;
use super::kernel_func::{waits, KernelFunc};
use super::regs::descriptor::{
    DESC_EOR, DESC_FS, DESC_LS, DESC_OWN, DESC_RX_LONG, DESC_RX_RES, DESC_RX_RUNT, DESC_RX_RWMA,
    DESC_RX_RWT,
};
use super::regs::rtl8169::{
    CFG_9346, CFG_9346_LOCK, CFG_9346_UNLOCK, CMD, CMD_RE, CMD_RST, CMD_TE, IDR0, IMR, INT_LINKCHG,
    INT_RER, INT_ROK, INT_TER, INT_TOK, MAR0, MAR4, RCR, RCR_AAP, RCR_AB, RCR_AM, RCR_APM,
    RCR_MXDMA_UNLIMITED, RCR_RXFTH_NONE, RDSAR_HI, RDSAR_LO, RMS, TCR, TCR_IFG_NORMAL,
    TCR_MXDMA_UNLIMITED, TNPDS_HI, TNPDS_LO, TPPOLL, TPPOLL_NPQ, ETTHR,
};
use crate::calls::{call_no, CallNo};
use crate::types::{DevError, DevResult, EthernetAddress};

verus! {

broadcast use group_mmio;

/// Number of descriptors of each ring.
pub const NUM_DESC: usize = 128;
/// Size of each descriptor buffer.
pub const BUF_SIZE: usize = 2048;
/// Size of a descriptor.
pub const DESC_SIZE: usize = 16;
/// Milliseconds the software reset may take.
pub const RESET_TIMEOUT_MS: u32 = 10000;
/// Early transmit threshold.
pub const ETTHR_VALUE: u8 = 0x3B;

/// RTL8169/8168 descriptor.
#[derive(Debug, Clone, Copy)]
pub struct Descriptor {
    pub opts1: u32,
    pub opts2: u32,
    pub addr_low: u32,
    pub addr_high: u32,
}

/// The receive errors that make a descriptor be dropped.
pub open spec fn rx_error_mask() -> u32 {
    DESC_RX_RES | DESC_RX_RWMA | DESC_RX_RWT | DESC_RX_RUNT | DESC_RX_LONG
}

/// The first word of a transmit descriptor that sends a frame of `len`
/// bytes from descriptor `idx`: owned by the NIC, first and last segment,
/// end of ring on the last descriptor and also on the first one.
pub open spec fn tx_opts1(idx: usize, len: u32) -> u32 {
    let base = DESC_OWN | DESC_FS | DESC_LS | len;
    if idx == 0 || idx == NUM_DESC - 1 {
        base | DESC_EOR
    } else {
        base
    }
}

/// The first word of a receive descriptor handed back to the NIC.
pub open spec fn rx_ready_opts1(is_last: bool) -> u32 {
    if is_last {
        DESC_OWN | (BUF_SIZE as u32) | DESC_EOR
    } else {
        DESC_OWN | (BUF_SIZE as u32)
    }
}

/// The register writes that configure the controller once its rings are
/// set up at `rx_desc_paddr` and `tx_desc_paddr`: receive configuration
/// (all frames, unlimited DMA burst, no FIFO threshold), the transmitter
/// enabled before its configuration (unlimited DMA burst, normal
/// inter-frame gap), maximum receive size, early transmit threshold, the
/// ring addresses (low and high words), interrupt mask (receive and
/// transmit OK and error, link change), receiver and transmitter enabled,
/// all multicast accepted, configuration registers locked.
pub open spec fn setup_sequence(rx_desc_paddr: usize, tx_desc_paddr: usize) -> Seq<IoWrite> {
    seq![
        IoWrite::Word(RCR, RCR_AAP | RCR_APM | RCR_AM | RCR_AB | RCR_MXDMA_UNLIMITED | RCR_RXFTH_NONE),
        IoWrite::Byte(CMD, CMD_TE),
        IoWrite::Word(TCR, TCR_MXDMA_UNLIMITED | TCR_IFG_NORMAL),
        IoWrite::Half(RMS, BUF_SIZE as u16),
        IoWrite::Byte(ETTHR, ETTHR_VALUE),
        IoWrite::Word(RDSAR_LO, rx_desc_paddr as u32),
        IoWrite::Word(RDSAR_HI, (rx_desc_paddr as u64 >> 32u64) as u32),
        IoWrite::Word(TNPDS_LO, tx_desc_paddr as u32),
        IoWrite::Word(TNPDS_HI, (tx_desc_paddr as u64 >> 32u64) as u32),
        IoWrite::Half(IMR, INT_ROK | INT_TOK | INT_RER | INT_TER | INT_LINKCHG),
        IoWrite::Byte(CMD, CMD_RE | CMD_TE),
        IoWrite::Word(MAR0, 0xFFFF_FFFFu32),
        IoWrite::Word(MAR4, 0xFFFF_FFFFu32),
        IoWrite::Byte(CFG_9346, CFG_9346_LOCK),
    ]
}

/// Number of polls of the software reset (10us apart).
pub open spec fn reset_polls() -> int {
    (RESET_TIMEOUT_MS * 100) as int
}

/// From access `k` of the window at `base` on, the reset completed: `n`
/// polls (fewer than the budget) found the reset bit set, the next one
/// found it clear.
pub open spec fn reset_seen<I: DeviceIo>(io: &I, base: usize, k: int, n: int) -> bool {
    0 <= n < reset_polls() && polls8_set(io, base, k, n, CMD, CMD_RST) && read8_clear(io, base, k + n, CMD, CMD_RST)
}

/// The rings and buffers of `d` came from kernel calls numbered from `c`,
/// one call each: the transmit ring from call `c`, the receive ring from
/// `c + 2`, transmit buffer `i` from `c + 4 + 2i`, receive buffer `i` from
/// `c + 4 + 2N + 2i` (`N` descriptors per ring; each call in between frees
/// what the ring or slot held before).
pub open spec fn allocated_from<K: KernelFunc>(d: Rtl8169Driver, c: int) -> bool {
    &&& slot_from::<K>(c, d.tx_ring())
    &&& slot_from::<K>(c + 2, d.rx_ring())
    &&& forall|i: int| 0 <= i < NUM_DESC ==> slot_from::<K>(c + 4 + 2 * i, #[trigger] d.tx_bufs()[i])
    &&& forall|i: int| 0 <= i < NUM_DESC ==> slot_from::<K>(c + 4 + 2 * NUM_DESC + 2 * i, #[trigger] d.rx_bufs()[i])
}

/// The allocations numbered from `c` (as in `allocated_from`) stopped at
/// one that failed: a ring, or a buffer of one of the rings.
pub open spec fn allocation_failed<K: KernelFunc>(c: int) -> bool {
    let ring_pages = pages_needed((DESC_SIZE * NUM_DESC) as int);
    let buf_pages = pages_needed(BUF_SIZE as int);
    ||| alloc_failed::<K>(c, ring_pages)
    ||| alloc_failed::<K>(c + 2, ring_pages)
    ||| exists|k: int| 0 <= k < NUM_DESC && #[trigger] alloc_failed::<K>(c + 4 + 2 * k, buf_pages)
    ||| exists|k: int| 0 <= k < NUM_DESC && #[trigger] alloc_failed::<K>(c + 4 + 2 * NUM_DESC + 2 * k, buf_pages)
}

/// `d` is a driver just created for the window at `base`, the interrupt
/// line `irq` and the series `series`: no access made, no kernel call made,
/// MAC address zero, nothing allocated, ring positions at the start.
pub open spec fn fresh_driver(d: Rtl8169Driver, base: usize, irq: u8, series: RealtekSeries) -> bool {
    &&& d.wf() && d.base() == base && d.accesses() == 0 && d.irq_line() == irq && d.chip_series() == series
    &&& d.mac_bytes()@ == seq![0u8, 0, 0, 0, 0, 0] && d.tx_index() == 0 && d.rx_index() == 0
    &&& d.tx_ring() is None && d.rx_ring() is None
    &&& d.tx_bufs() == Seq::new(NUM_DESC as nat, |i: int| None::<DmaBuffer>)
    &&& d.rx_bufs() == Seq::new(NUM_DESC as nat, |i: int| None::<DmaBuffer>)
    &&& d.calls_made() == 0
}

/// What initialization did, from the driver `d0` to `d1`, returning `r`:
/// the reset (its polls with a 10us wait, the next kernel calls, after each
/// that found the reset bit set), the configuration registers unlocked, one
/// allocation per ring and buffer (see `allocated_from`), both rings set
/// up, the configuration written in order and the MAC address read.
/// Numbers of accesses and calls count from `d0`'s.
pub open spec fn initialized<K: KernelFunc, I: DeviceIo>(io: &I, d0: Rtl8169Driver, d1: Rtl8169Driver, r: DevResult) -> bool {
    &&& r matches Err(e) ==> e == DevError::BadState || e == DevError::NoMemory
    // Reset: the reset bit set on top of the command register's value
    &&& exists|c: u8| #[trigger] read8_gave(io, mmio_at(d0.base(), d0.accesses()), CMD, c)
        && wrote(io, mmio_at(d0.base(), d0.accesses() + 1), IoWrite::Byte(CMD, c | CMD_RST))
    // The reset never completed: all the polls found the bit set, a
    // 10us wait after each; nothing after
    &&& r == Err::<(), DevError>(DevError::BadState) ==>
        polls8_set(io, d0.base(), d0.accesses() + 2, reset_polls(), CMD, CMD_RST)
        && d1.accesses() == d0.accesses() + 2 + reset_polls()
        && waits::<K>(d0.calls_made(), reset_polls(), 10)
        && d1.calls_made() == d0.calls_made() + reset_polls()
    // A ring or a buffer could not be had: the configuration registers
    // were unlocked after the reset, nothing after
    &&& r == Err::<(), DevError>(DevError::NoMemory) ==> exists|n: int|
        #[trigger] reset_seen(io, d0.base(), d0.accesses() + 2, n)
        && wrote(io, mmio_at(d0.base(), d0.accesses() + 3 + n), IoWrite::Byte(CFG_9346, CFG_9346_UNLOCK))
        && d1.accesses() == d0.accesses() + 4 + n
        && waits::<K>(d0.calls_made(), n, 10)
        && allocation_failed::<K>(d0.calls_made() + n)
    // Success: the reset's waits, one allocation per ring and buffer,
    // unlock, the configuration in order, then the MAC address read
    &&& r is Ok ==> exists|n: int| #[trigger] reset_seen(io, d0.base(), d0.accesses() + 2, n)
        && wrote(io, mmio_at(d0.base(), d0.accesses() + 3 + n), IoWrite::Byte(CFG_9346, CFG_9346_UNLOCK))
        && wrote_in_order(io, d0.base(), d0.accesses() + 4 + n,
            setup_sequence(d1.rx_ring()->Some_0.phys(), d1.tx_ring()->Some_0.phys()))
        && mac_read_from(io, d0.base(), d0.accesses() + 18 + n, d1.mac_bytes())
        && d1.accesses() == d0.accesses() + 24 + n
        && waits::<K>(d0.calls_made(), n, 10)
        && allocated_from::<K>(d1, d0.calls_made() + n)
        && d1.calls_made() == d0.calls_made() + n + 4 + 4 * NUM_DESC
    // The rings and buffers allocated
    &&& r is Ok ==> d1.tx_ring() is Some && d1.rx_ring() is Some
        && d1.tx_ring()->Some_0.page_count() == pages_needed((DESC_SIZE * NUM_DESC) as int)
        && d1.rx_ring()->Some_0.page_count() == pages_needed((DESC_SIZE * NUM_DESC) as int)
    &&& r is Ok ==> forall|i: int| 0 <= i < NUM_DESC ==> slot_allocated(#[trigger] d1.tx_bufs()[i], BUF_SIZE)
    &&& r is Ok ==> forall|i: int| 0 <= i < NUM_DESC ==> slot_allocated(#[trigger] d1.rx_bufs()[i], BUF_SIZE)
    // Both rings set up
    &&& r is Ok ==> forall|i: int| 0 <= i < NUM_DESC ==> desc_written(io,
        #[trigger] descriptor_address(d1.tx_ring()->Some_0.virt(), i as usize),
        buffer_desc(0, slot_paddr(d1.tx_bufs()[i])))
    &&& r is Ok ==> forall|i: int| 0 <= i < NUM_DESC ==> desc_written(io,
        #[trigger] descriptor_address(d1.rx_ring()->Some_0.virt(), i as usize),
        buffer_desc(rx_ready_opts1(i == NUM_DESC - 1), slot_paddr(d1.rx_bufs()[i])))
    &&& d1.tx_index() == d0.tx_index()
    &&& d1.rx_index() == d0.rx_index()
    &&& d1.base() == d0.base()
    &&& d1.irq_line() == d0.irq_line()
    &&& d1.chip_series() == d0.chip_series()
}
/// The rings and buffers of `d` were given back, by kernel calls numbered
/// from `c`, `d`'s count of calls: the transmit ring `c`, the receive ring
/// `c + 1`, transmit buffer `i` `c + 2 + (N - 1 - i)`, receive buffer `i`
/// `c + 2 + N + (N - 1 - i)` (`N` descriptors per ring); a number whose
/// buffer is not held goes unused.
pub open spec fn released<K: KernelFunc>(d: Rtl8169Driver) -> bool {
    let c = d.calls_made();
    &&& slot_freed::<K>(c, d.tx_ring())
    &&& slot_freed::<K>(c + 1, d.rx_ring())
    &&& forall|i: int| 0 <= i < NUM_DESC ==> slot_freed::<K>(c + 2 + NUM_DESC - 1 - i, #[trigger] d.tx_bufs()[i])
    &&& forall|i: int| 0 <= i < NUM_DESC ==> slot_freed::<K>(c + 2 + 2 * NUM_DESC - 1 - i, #[trigger] d.rx_bufs()[i])
}

/// The MAC address bytes were read, in order, by accesses `k` to `k + 5`
/// of the window at `base`, from IDR0 to IDR5.
pub open spec fn mac_read_from<I: DeviceIo>(io: &I, base: usize, k: int, mac: [u8; 6]) -> bool {
    forall|i: int| 0 <= i < 6 ==> read8_gave(io, mmio_at(base, (k + i) as int), (IDR0 + i) as u16, #[trigger] mac[i])
}

/// The descriptor that describes the buffer at `buf_paddr` to the NIC.
pub open spec fn buffer_desc(opts1: u32, buf_paddr: usize) -> Descriptor {
    Descriptor { opts1, opts2: 0, addr_low: buf_paddr as u32, addr_high: (buf_paddr as u64 >> 32u64) as u32 }
}

/// `io` wrote the four words of descriptor `d` at `addr`.
pub open spec fn desc_written<I: DeviceIo>(io: &I, addr: usize, d: Descriptor) -> bool {
    &&& mem_wrote(io, addr, d.opts1)
    &&& mem_wrote(io, addr.wrapping_add(4), d.opts2)
    &&& mem_wrote(io, addr.wrapping_add(8), d.addr_low)
    &&& mem_wrote(io, addr.wrapping_add(12), d.addr_high)
}

/// What the first word of a receive descriptor says (see
/// `Rtl8169Driver::rx_descriptor_outcome`).
pub open spec fn rx_outcome(opts1: u32) -> DevResult<usize> {
    if opts1 & DESC_OWN != 0 {
        Err(DevError::Again)
    } else if opts1 & rx_error_mask() != 0 {
        Err(DevError::Io)
    } else {
        Ok((opts1 & 0x3FFF) as usize)
    }
}

/// Virtual address of the buffer in a slot (0 for an empty slot).
pub open spec fn slot_vaddr(slot: Option<DmaBuffer>) -> usize {
    match slot {
        Some(b) => b.virt(),
        None => 0,
    }
}

/// Physical address of the buffer in a slot (0 for an empty slot).
pub open spec fn slot_paddr(slot: Option<DmaBuffer>) -> usize {
    match slot {
        Some(b) => b.phys(),
        None => 0,
    }
}

/// What a transmit attempt of the frame `data` did, from the driver `d0`
/// to `d1`, returning `r`: the current descriptor's first word read, and
/// for a descriptor the CPU owns the frame copied to its buffer, the
/// descriptor handed to the NIC with the padded length and the normal
/// priority queue polled.
pub open spec fn transmitted<I: DeviceIo>(io: &I, d0: Rtl8169Driver, d1: Rtl8169Driver, data: &[u8], r: DevResult) -> bool {
    let idx = d0.tx_index();
    &&& data@.len() > BUF_SIZE ==> r == Err::<(), DevError>(DevError::InvalidParam)
    &&& r is Ok ==> d1.tx_index() == (idx + 1) % (NUM_DESC as int)
    &&& r matches Err(e) ==> (e == DevError::InvalidParam || e == DevError::Again) && d1.tx_index() == idx
    &&& (r matches Err(e) && e == DevError::InvalidParam ==> data@.len() > BUF_SIZE)
    &&& data@.len() <= BUF_SIZE ==> exists|o: u32| #[trigger] mem_read_gave(io, d0.current_tx_desc(), o)
        && (r is Ok <==> o & DESC_OWN == 0)
    &&& r is Ok ==> call_ensures(I::copy_to_mem, (io, slot_vaddr(d0.tx_bufs()[idx as int]), data), ())
        && mem_wrote(io, d0.current_tx_desc(), tx_opts1(idx, padded_size(data@.len() as int) as u32))
        && wrote(io, mmio_at(d0.base(), d0.accesses()), IoWrite::Byte(TPPOLL, TPPOLL_NPQ))
        && d1.accesses() == d0.accesses() + 1
    &&& r is Err ==> d1.accesses() == d0.accesses()
    &&& d1.base() == d0.base()
    &&& d1.rx_index() == d0.rx_index()
    &&& d1.tx_ring() == d0.tx_ring()
    &&& d1.rx_ring() == d0.rx_ring()
    &&& d1.tx_bufs() == d0.tx_bufs()
    &&& d1.rx_bufs() == d0.rx_bufs()
    &&& d1.mac_bytes() == d0.mac_bytes()
    &&& d1.calls_made() == d0.calls_made()
}

/// What a receive attempt did, from the driver `d0` to `d1`, returning `r`:
/// the current descriptor's first word read; for a good frame a buffer
/// allocated for it (the next kernel call), the frame copied there and the
/// descriptor handed back to the NIC; an erroneous frame dropped (the
/// descriptor handed back).
pub open spec fn received<K: KernelFunc, I: DeviceIo>(io: &I, d0: Rtl8169Driver, d1: Rtl8169Driver, r: DevResult<RxBuffer>) -> bool {
    let idx = d0.rx_index();
    let c = d0.calls_made();
    &&& r matches Ok(b) ==> b.vaddr != 0 && b.len < 0x4000 && d1.rx_index() == (idx + 1) % (NUM_DESC as int)
    &&& r matches Err(e) ==> e == DevError::Again || e == DevError::Io || e == DevError::NoMemory
    &&& (r matches Err(e) && e == DevError::Io ==> d1.rx_index() == (idx + 1) % (NUM_DESC as int))
    &&& (r matches Err(e) && e != DevError::Io ==> d1.rx_index() == idx)
    // The descriptor word read, and the word written back
    &&& exists|o: u32| #[trigger] mem_read_gave(io, d0.current_rx_desc(), o) && match r {
        Ok(b) => rx_outcome(o) == Ok::<usize, DevError>(b.len)
            && allocated::<K>(c, pages_needed(b.len as int), b.vaddr) && d1.calls_made() == c + 1
            && mem_wrote(io, d0.current_rx_desc(), rx_ready_opts1(idx == NUM_DESC - 1))
            && call_ensures(I::copy_mem, (io, slot_vaddr(d0.rx_bufs()[idx as int]), b.vaddr, b.len), ()),
        Err(DevError::NoMemory) => rx_outcome(o) is Ok && alloc_failed::<K>(c, pages_needed(rx_outcome(o)->Ok_0 as int))
            && d1.calls_made() == c + 1,
        Err(DevError::Io) => rx_outcome(o) == Err::<usize, DevError>(DevError::Io)
            && mem_wrote(io, d0.current_rx_desc(), DESC_OWN | (BUF_SIZE as u32)) && d1.calls_made() == c,
        Err(e) => rx_outcome(o) == Err::<usize, DevError>(e) && d1.calls_made() == c,
    }
    &&& d1.tx_index() == d0.tx_index()
    &&& d1.tx_ring() == d0.tx_ring()
    &&& d1.rx_ring() == d0.rx_ring()
    &&& d1.tx_bufs() == d0.tx_bufs()
    &&& d1.rx_bufs() == d0.rx_bufs()
    &&& d1.mac_bytes() == d0.mac_bytes()
    &&& d1.accesses() == d0.accesses()
    &&& d1.base() == d0.base()
}

/// What a receive produced: a packet in a newly allocated DMA buffer.
pub struct RxBuffer {
    /// Virtual address of the buffer that holds the packet.
    pub vaddr: usize,
    /// Length of the packet.
    pub len: usize,
}

/// RTL8169/RTL8168/RTL8111 Gigabit Ethernet driver state.
pub struct Rtl8169Driver {
    mmio: MmioOps,
    irq: u8,
    mac: EthernetAddress,
    series: RealtekSeries,
    tx_desc: Option<DmaBuffer>,
    tx_buffers: DmaBufferArray<NUM_DESC>,
    tx_cur: usize,
    rx_desc: Option<DmaBuffer>,
    rx_buffers: DmaBufferArray<NUM_DESC>,
    rx_cur: usize,
    calls: CallNo,
}

impl Rtl8169Driver {
    /// The ring indices are within the rings.
    pub closed spec fn wf(self) -> bool {
        self.tx_cur < NUM_DESC && self.rx_cur < NUM_DESC
    }

    /// Base address of the register window.
    pub closed spec fn base(self) -> usize {
        self.mmio.base()
    }

    /// Number of register accesses made so far.
    pub closed spec fn accesses(self) -> int {
        self.mmio.step()
    }

    /// Interrupt line.
    pub closed spec fn irq_line(self) -> u8 {
        self.irq
    }

    /// Number of calls made to the kernel services so far.
    pub closed spec fn calls_made(self) -> int {
        self.calls.count()
    }

    /// The driver is `other` but for its count of kernel calls.
    pub closed spec fn same_but_calls(self, other: Self) -> bool {
        self == Rtl8169Driver { calls: self.calls, ..other }
    }

    /// Controller series.
    pub closed spec fn chip_series(self) -> RealtekSeries {
        self.series
    }

    /// The MAC address as last read from the device.
    pub closed spec fn mac_bytes(self) -> [u8; 6] {
        self.mac.0
    }

    /// Index of the next transmit descriptor.
    pub closed spec fn tx_index(self) -> usize {
        self.tx_cur
    }

    /// Index of the next receive descriptor.
    pub closed spec fn rx_index(self) -> usize {
        self.rx_cur
    }

    /// The transmit descriptor ring memory, once allocated.
    pub closed spec fn tx_ring(self) -> Option<DmaBuffer> {
        self.tx_desc
    }

    /// The receive descriptor ring memory, once allocated.
    pub closed spec fn rx_ring(self) -> Option<DmaBuffer> {
        self.rx_desc
    }

    /// The transmit buffers.
    pub closed spec fn tx_bufs(self) -> Seq<Option<DmaBuffer>> {
        self.tx_buffers.slots()
    }

    /// The receive buffers.
    pub closed spec fn rx_bufs(self) -> Seq<Option<DmaBuffer>> {
        self.rx_buffers.slots()
    }

    /// Address of the current transmit descriptor.
    pub open spec fn current_tx_desc(self) -> usize {
        descriptor_address(self.tx_ring()->Some_0.virt(), self.tx_index())
    }

    /// Address of the current receive descriptor.
    pub open spec fn current_rx_desc(self) -> usize {
        descriptor_address(self.rx_ring()->Some_0.virt(), self.rx_index())
    }

    /// Whether both descriptor rings are allocated.
    pub open spec fn rings_ready(self) -> bool {
        &&& self.tx_ring() is Some
        &&& self.rx_ring() is Some
    }

    /// Create a new driver instance; nothing is allocated yet.
    pub fn new(base_addr: usize, irq: u8, series: RealtekSeries) -> (r: DevResult<Self>)
        ensures
            r matches Ok(d) && fresh_driver(d, base_addr, irq, series),
    {
        let d = Rtl8169Driver {
            mmio: MmioOps::new(base_addr),
            irq,
            mac: EthernetAddress([0; 6]),
            series,
            tx_desc: None,
            tx_buffers: DmaBufferArray::new(),
            tx_cur: 0,
            rx_desc: None,
            rx_buffers: DmaBufferArray::new(),
            rx_cur: 0,
            calls: CallNo::first(),
        };
        assert(d.mac.0@ =~= seq![0u8, 0, 0, 0, 0, 0]);
        Ok(d)
    }

    /// Free the descriptor rings and the buffers (see `released`).
    pub fn release<K: KernelFunc>(self)
        ensures
            released::<K>(self),
    {
        let mut calls = self.calls;
        match self.tx_desc {
            Some(ring) => ring.free::<K>(&mut calls),
            None => calls.advance(),
        }
        match self.rx_desc {
            Some(ring) => ring.free::<K>(&mut calls),
            None => calls.advance(),
        }
        self.tx_buffers.free_all::<K>(&mut calls);
        self.rx_buffers.free_all::<K>(&mut calls);
    }

    /// Replace a descriptor ring allocation, freeing the one it replaces by
    /// the call numbered `calls` (used in any case).
    fn replace_ring<K: KernelFunc>(slot: &mut Option<DmaBuffer>, b: DmaBuffer, calls: &mut CallNo)
        ensures
            *final(slot) == Some(b),
            *final(calls) == call_no(old(calls).count() + 1),
    {
        let mut tmp = Some(b);
        core::mem::swap(&mut tmp, slot);
        match tmp {
            Some(previous) => previous.free::<K>(calls),
            None => calls.advance(),
        }
    }

    /// Initialize the hardware: reset, unlock the configuration registers,
    /// allocate the descriptor rings and buffers and set the rings up,
    /// configure reception, enable the transmitter and configure
    /// transmission, program the ring addresses,
    /// unmask interrupts, enable the receiver and the transmitter, accept
    /// all multicast, lock the configuration registers and read the MAC
    /// address.
    pub fn init<K: KernelFunc, I: DeviceIo>(&mut self, io: &I) -> (r: DevResult)
        requires
            old(self).wf(),
        ensures
            final(self).wf(),
            initialized::<K, I>(io, *old(self), *final(self), r),
    {
        let ghost b = self.mmio.base();
        let ghost s = self.mmio.step();
        let ghost c0 = self.calls.count();
        assert(b == old(self).base() && s == old(self).accesses());
        // Software reset
        let reset = RealtekCommon::software_reset::<K, I>(io, &mut self.mmio, &mut self.calls, CMD, CMD_RST, RESET_TIMEOUT_MS);
        let ghost c = choose|c: u8| #[trigger] read8_gave(io, mmio_at(b, s), CMD, c)
            && wrote(io, mmio_at(b, s + 1), IoWrite::Byte(CMD, c | CMD_RST));
        assert(read8_gave(io, mmio_at(old(self).base(), old(self).accesses()), CMD, c)
            && wrote(io, mmio_at(old(self).base(), old(self).accesses() + 1), IoWrite::Byte(CMD, c | CMD_RST)));
        if reset.is_err() {
            return reset;
        }
        let ghost n: int = choose|n: int| 0 <= n < RESET_TIMEOUT_MS * 100 && #[trigger] polls8_set(io, b, s + 2, n, CMD, CMD_RST)
            && read8_clear(io, b, s + 2 + n, CMD, CMD_RST) && self.mmio == mmio_at(b, s + 3 + n)
            && waits::<K>(c0, n, 10) && self.calls == call_no(c0 + n);
        assert(reset_seen(io, b, s + 2, n));
        // Unlock configuration registers
        self.mmio.write8(io, CFG_9346, CFG_9346_UNLOCK);
        assert(wrote(io, mmio_at(b, s + 3 + n), IoWrite::Byte(CFG_9346, CFG_9346_UNLOCK)));
        assert(self.accesses() == s + 4 + n);
        // Allocate descriptor rings
        let desc_size = DESC_SIZE * NUM_DESC;
        let tx_ring = match DmaBuffer::allocate::<K>(desc_size, &mut self.calls) {
            Ok(ring) => ring,
            Err(e) => {
                assert(self.accesses() == s + 4 + n && reset_seen(io, b, s + 2, n)
                    && wrote(io, mmio_at(b, s + 3 + n), IoWrite::Byte(CFG_9346, CFG_9346_UNLOCK)));
                assert(allocation_failed::<K>(c0 + n));
                return Err(e);
            },
        };
        Self::replace_ring::<K>(&mut self.tx_desc, tx_ring, &mut self.calls);
        let rx_ring = match DmaBuffer::allocate::<K>(desc_size, &mut self.calls) {
            Ok(ring) => ring,
            Err(e) => {
                assert(self.accesses() == s + 4 + n && reset_seen(io, b, s + 2, n)
                    && wrote(io, mmio_at(b, s + 3 + n), IoWrite::Byte(CFG_9346, CFG_9346_UNLOCK)));
                assert(alloc_failed::<K>(c0 + n + 2, pages_needed((DESC_SIZE * NUM_DESC) as int)));
                assert(allocation_failed::<K>(c0 + n));
                return Err(e);
            },
        };
        Self::replace_ring::<K>(&mut self.rx_desc, rx_ring, &mut self.calls);
        // Allocate buffers and set the descriptors up
        assert(self.calls == call_no(c0 + n + 4));
        assert(self.tx_buffers.slots() == old(self).tx_bufs());
        if let Err(e) = self.tx_buffers.alloc_all::<K>(BUF_SIZE, &mut self.calls) {
            assert(self.accesses() == s + 4 + n && reset_seen(io, b, s + 2, n)
                && wrote(io, mmio_at(b, s + 3 + n), IoWrite::Byte(CFG_9346, CFG_9346_UNLOCK)));
            let ghost k = choose|k: int| #[trigger] allocated_up_to(self.tx_buffers.slots(), old(self).tx_bufs(), k, BUF_SIZE)
                && alloc_failed::<K>(c0 + n + 4 + 2 * k, pages_needed(BUF_SIZE as int));
            assert(alloc_failed::<K>(c0 + n + 4 + 2 * k, pages_needed(BUF_SIZE as int)));
            assert(allocation_failed::<K>(c0 + n));
            return Err(e);
        }
        assert(self.calls == call_no(c0 + n + 4 + 2 * NUM_DESC));
        assert(self.rx_buffers.slots() == old(self).rx_bufs());
        if let Err(e) = self.rx_buffers.alloc_all::<K>(BUF_SIZE, &mut self.calls) {
            assert(self.accesses() == s + 4 + n && reset_seen(io, b, s + 2, n)
                && wrote(io, mmio_at(b, s + 3 + n), IoWrite::Byte(CFG_9346, CFG_9346_UNLOCK)));
            let ghost k = choose|k: int| #[trigger] allocated_up_to(self.rx_buffers.slots(), old(self).rx_bufs(), k, BUF_SIZE)
                && alloc_failed::<K>(c0 + n + 4 + 2 * NUM_DESC + 2 * k, pages_needed(BUF_SIZE as int));
            assert(alloc_failed::<K>(c0 + n + 4 + 2 * NUM_DESC + 2 * k, pages_needed(BUF_SIZE as int)));
            assert(allocation_failed::<K>(c0 + n));
            return Err(e);
        }
        assert(allocated_from::<K>(*self, c0 + n));
        self.setup_tx_ring(io);
        self.setup_rx_ring(io);
        // Configure the controller
        let rx_desc_paddr = Self::ring_paddr(&self.rx_desc);
        let tx_desc_paddr = Self::ring_paddr(&self.tx_desc);
        let writes = Self::setup_writes(rx_desc_paddr, tx_desc_paddr);
        assert(writes@.len() == 14);
        assert(self.mmio == mmio_at(b, s + 4 + n));
        apply_writes(io, &mut self.mmio, &writes);
        assert(wrote_in_order(io, b, s + 4 + n, writes@));
        assert(self.mmio == mmio_at(b, s + 18 + n));
        // MAC address
        self.mac = RealtekCommon::read_mac_address(io, &mut self.mmio, IDR0);
        assert(mac_read_from(io, b, s + 18 + n, self.mac.0));
        assert(self.accesses() == s + 24 + n);
        assert(reset_seen(io, old(self).base(), old(self).accesses() + 2, n)
            && wrote(io, mmio_at(old(self).base(), old(self).accesses() + 3 + n), IoWrite::Byte(CFG_9346, CFG_9346_UNLOCK))
            && wrote_in_order(io, old(self).base(), old(self).accesses() + 4 + n,
                setup_sequence(self.rx_ring()->Some_0.phys(), self.tx_ring()->Some_0.phys()))
            && mac_read_from(io, old(self).base(), old(self).accesses() + 18 + n, self.mac_bytes())
            && self.accesses() == old(self).accesses() + 24 + n
            && waits::<K>(old(self).calls_made(), n, 10)
            && allocated_from::<K>(*self, old(self).calls_made() + n));
        Ok(())
    }

    /// The register writes of `setup_sequence` for rings at these addresses.
    pub fn setup_writes(rx_desc_paddr: usize, tx_desc_paddr: usize) -> (w: Vec<IoWrite>)
        ensures
            w@ == setup_sequence(rx_desc_paddr, tx_desc_paddr),
    {
        let mut w: Vec<IoWrite> = Vec::new();
        // Receive configuration
        w.push(IoWrite::Word(RCR, RCR_AAP | RCR_APM | RCR_AM | RCR_AB | RCR_MXDMA_UNLIMITED | RCR_RXFTH_NONE));
        // The transmitter is enabled before it is configured
        w.push(IoWrite::Byte(CMD, CMD_TE));
        w.push(IoWrite::Word(TCR, TCR_MXDMA_UNLIMITED | TCR_IFG_NORMAL));
        // Maximum receive packet size and early transmit threshold
        w.push(IoWrite::Half(RMS, BUF_SIZE as u16));
        w.push(IoWrite::Byte(ETTHR, ETTHR_VALUE));
        // Descriptor ring addresses
        w.push(IoWrite::Word(RDSAR_LO, low32(rx_desc_paddr)));
        w.push(IoWrite::Word(RDSAR_HI, high32(rx_desc_paddr)));
        w.push(IoWrite::Word(TNPDS_LO, low32(tx_desc_paddr)));
        w.push(IoWrite::Word(TNPDS_HI, high32(tx_desc_paddr)));
        // Interrupts
        w.push(IoWrite::Half(IMR, INT_ROK | INT_TOK | INT_RER | INT_TER | INT_LINKCHG));
        // Enable receiver and transmitter
        w.push(IoWrite::Byte(CMD, CMD_RE | CMD_TE));
        // Multicast filter: accept all
        w.push(IoWrite::Word(MAR0, 0xFFFF_FFFF));
        w.push(IoWrite::Word(MAR4, 0xFFFF_FFFF));
        // Lock configuration registers
        w.push(IoWrite::Byte(CFG_9346, CFG_9346_LOCK));
        assert(w@ =~= setup_sequence(rx_desc_paddr, tx_desc_paddr));
        w
    }

    /// Physical address of a ring allocation (0 when absent).
    fn ring_paddr(ring: &Option<DmaBuffer>) -> (p: usize)
        ensures
            p == match ring {
                Some(b) => b.phys(),
                None => 0,
            },
    {
        match ring {
            Some(b) => b.paddr(),
            None => 0,
        }
    }

    /// Virtual address of a ring allocation (0 when absent).
    fn ring_vaddr(ring: &Option<DmaBuffer>) -> (v: usize)
        ensures
            v == match ring {
                Some(b) => b.virt(),
                None => 0,
            },
    {
        match ring {
            Some(b) => b.vaddr(),
            None => 0,
        }
    }

    /// Write the four words of descriptor `d` at `addr`.
    fn write_descriptor<I: DeviceIo>(io: &I, addr: usize, d: Descriptor)
        ensures
            desc_written(io, addr, d),
    {
        io.write_mem32(addr, d.opts1);
        io.write_mem32(addr.wrapping_add(4), d.opts2);
        io.write_mem32(addr.wrapping_add(8), d.addr_low);
        io.write_mem32(addr.wrapping_add(12), d.addr_high);
    }

    /// The descriptor that describes buffer `buf_paddr` to the NIC.
    pub fn buffer_descriptor(opts1: u32, buf_paddr: usize) -> (d: Descriptor)
        ensures
            d == buffer_desc(opts1, buf_paddr),
    {
        Descriptor { opts1, opts2: 0, addr_low: low32(buf_paddr), addr_high: high32(buf_paddr) }
    }

    /// Set the transmit ring up: every descriptor owned by the CPU and
    /// pointing at its buffer.
    fn setup_tx_ring<I: DeviceIo>(&mut self, io: &I) -> (r: DevResult)
        requires
            old(self).tx_ring() is Some,
        ensures
            r is Ok,
            *final(self) == *old(self),
            forall|i: int| 0 <= i < NUM_DESC ==> desc_written(io,
                #[trigger] descriptor_address(old(self).tx_ring()->Some_0.virt(), i as usize),
                buffer_desc(0, slot_paddr(old(self).tx_bufs()[i]))),
    {
        let desc_vaddr = Self::ring_vaddr(&self.tx_desc);
        let mut i: usize = 0;
        while i < NUM_DESC
            invariant
                i <= NUM_DESC,
                desc_vaddr == self.tx_ring()->Some_0.virt(),
                forall|j: int| 0 <= j < i ==> desc_written(io,
                    #[trigger] descriptor_address(desc_vaddr, j as usize), buffer_desc(0, slot_paddr(self.tx_bufs()[j]))),
            decreases NUM_DESC - i,
        {
            let addr = desc_addr(desc_vaddr, i);
            let buf_paddr = self.tx_buffers.paddr(i);
            Self::write_descriptor(io, addr, Self::buffer_descriptor(0, buf_paddr));
            i = i + 1;
        }
        Ok(())
    }

    /// Set the receive ring up: every descriptor owned by the NIC, with the
    /// buffer size, end of ring on the last one, pointing at its buffer.
    fn setup_rx_ring<I: DeviceIo>(&mut self, io: &I) -> (r: DevResult)
        requires
            old(self).rx_ring() is Some,
        ensures
            r is Ok,
            *final(self) == *old(self),
            forall|i: int| 0 <= i < NUM_DESC ==> desc_written(io,
                #[trigger] descriptor_address(old(self).rx_ring()->Some_0.virt(), i as usize),
                buffer_desc(rx_ready_opts1(i == NUM_DESC - 1), slot_paddr(old(self).rx_bufs()[i]))),
    {
        let desc_vaddr = Self::ring_vaddr(&self.rx_desc);
        let mut i: usize = 0;
        while i < NUM_DESC
            invariant
                i <= NUM_DESC,
                desc_vaddr == self.rx_ring()->Some_0.virt(),
                forall|j: int| 0 <= j < i ==> desc_written(io,
                    #[trigger] descriptor_address(desc_vaddr, j as usize),
                    buffer_desc(rx_ready_opts1(j == NUM_DESC - 1), slot_paddr(self.rx_bufs()[j]))),
            decreases NUM_DESC - i,
        {
            let addr = desc_addr(desc_vaddr, i);
            let buf_paddr = self.rx_buffers.paddr(i);
            let opts1 = Self::rx_desc_opts1(i == NUM_DESC - 1);
            Self::write_descriptor(io, addr, Self::buffer_descriptor(opts1, buf_paddr));
            i = i + 1;
        }
        Ok(())
    }

    /// First word of a receive descriptor handed to the NIC.
    pub fn rx_desc_opts1(is_last: bool) -> (o: u32)
        ensures
            o == rx_ready_opts1(is_last),
    {
        let opts1 = DESC_OWN | (BUF_SIZE as u32);
        if is_last {
            opts1 | DESC_EOR
        } else {
            opts1
        }
    }

    /// Address of transmit descriptor `idx`.
    pub fn tx_desc(&self, idx: usize) -> (a: usize)
        requires
            self.tx_ring() is Some,
            idx < NUM_DESC,
        ensures
            a == descriptor_address(self.tx_ring()->Some_0.virt(), idx),
    {
        let desc_vaddr = Self::ring_vaddr(&self.tx_desc);
        desc_addr(desc_vaddr, idx)
    }

    /// Address of receive descriptor `idx`.
    pub fn rx_desc(&self, idx: usize) -> (a: usize)
        requires
            self.rx_ring() is Some,
            idx < NUM_DESC,
        ensures
            a == descriptor_address(self.rx_ring()->Some_0.virt(), idx),
    {
        let desc_vaddr = Self::ring_vaddr(&self.rx_desc);
        desc_addr(desc_vaddr, idx)
    }

    /// First word of the transmit descriptor `idx` that sends `len` bytes.
    pub fn tx_desc_opts1(idx: usize, len: usize) -> (o: u32)
        requires
            len <= BUF_SIZE,
        ensures
            o == tx_opts1(idx, len as u32),
    {
        let mut opts = DESC_OWN | DESC_FS | DESC_LS | (len as u32);
        let is_first = idx == 0;
        let is_last = idx == NUM_DESC - 1;
        if is_first {
            opts = opts | DESC_EOR;
        }
        if is_last {
            opts = opts | DESC_EOR;
        }
        opts
    }

    /// Transmit a frame: if the current descriptor is free, copy the frame
    /// to its buffer, hand the descriptor (padded length) to the NIC, poll
    /// the normal priority queue and move to the next descriptor.
    pub fn do_transmit<I: DeviceIo>(&mut self, io: &I, data: &[u8]) -> (r: DevResult)
        requires
            old(self).wf(),
            old(self).rings_ready(),
        ensures
            final(self).wf(),
            transmitted(io, *old(self), *final(self), data, r),
    {
        if data.len() > BUF_SIZE {
            return Err(DevError::InvalidParam);
        }
        let idx = self.tx_cur;
        let desc = self.tx_desc(idx);
        // Check if the descriptor is available
        let opts1 = io.read_mem32(desc);
        assert(mem_read_gave(io, old(self).current_tx_desc(), opts1));
        if (opts1 & DESC_OWN) != 0 {
            return Err(DevError::Again);
        }
        // Copy data to the transmit buffer
        let tx_vaddr = self.tx_buffers.vaddr(idx);
        io.copy_to_mem(tx_vaddr, data);
        // Set the descriptor up and transmit
        let len = RealtekCommon::pad_frame_size(data.len());
        io.write_mem32(desc, Self::tx_desc_opts1(idx, len));
        self.mmio.write8(io, TPPOLL, TPPOLL_NPQ);
        // Move to the next descriptor
        self.tx_cur = (self.tx_cur + 1) % NUM_DESC;
        Ok(())
    }

    /// Whether a receive descriptor word reports an error.
    pub fn rx_has_error(opts1: u32) -> (r: bool)
        ensures
            r == (opts1 & rx_error_mask() != 0),
    {
        (opts1 & (DESC_RX_RES | DESC_RX_RWMA | DESC_RX_RWT | DESC_RX_RUNT | DESC_RX_LONG)) != 0
    }

    /// What the first word of a receive descriptor says: `Again` while the
    /// NIC owns it, `Io` for an erroneous frame, otherwise the frame length
    /// (its low 14 bits).
    pub fn rx_descriptor_outcome(opts1: u32) -> (r: DevResult<usize>)
        ensures
            r == rx_outcome(opts1),
            opts1 & DESC_OWN != 0 ==> r == Err::<usize, DevError>(DevError::Again),
            opts1 & DESC_OWN == 0 && opts1 & rx_error_mask() != 0 ==> r == Err::<usize, DevError>(DevError::Io),
            opts1 & DESC_OWN == 0 && opts1 & rx_error_mask() == 0
                ==> r == Ok::<usize, DevError>((opts1 & 0x3FFF) as usize),
            r matches Ok(n) ==> n < 0x4000,
    {
        if (opts1 & DESC_OWN) != 0 {
            return Err(DevError::Again);
        }
        // Check for errors
        if Self::rx_has_error(opts1) {
            return Err(DevError::Io);
        }
        proof {
            assert(opts1 & 0x3FFFu32 < 0x4000u32) by (bit_vector);
        }
        Ok((opts1 & 0x3FFF) as usize)
    }

    /// Receive a packet: if the NIC has filled the current descriptor, an
    /// erroneous frame is dropped (descriptor handed back) with `Io`; a good
    /// one is copied to a newly allocated DMA buffer and the descriptor is
    /// handed back to the NIC. The next descriptor is used next time.
    pub fn do_receive<K: KernelFunc, I: DeviceIo>(&mut self, io: &I) -> (r: DevResult<RxBuffer>)
        requires
            old(self).wf(),
            old(self).rings_ready(),
        ensures
            final(self).wf(),
            received::<K, I>(io, *old(self), *final(self), r),
    {
        let idx = self.rx_cur;
        let desc = self.rx_desc(idx);
        // Check if a packet is available
        let opts1 = io.read_mem32(desc);
        assert(mem_read_gave(io, old(self).current_rx_desc(), opts1));
        let packet_len = match Self::rx_descriptor_outcome(opts1) {
            Ok(n) => n,
            Err(e) => {
                if e == DevError::Io {
                    // Drop the frame: hand the descriptor back
                    io.write_mem32(desc, DESC_OWN | (BUF_SIZE as u32));
                    self.rx_cur = (self.rx_cur + 1) % NUM_DESC;
                }
                return Err(e);
            },
        };
        // Allocate a buffer and copy the packet
        let pages = RealtekCommon::pages_for_size(packet_len);
        let ghost c = self.calls.count();
        let (pkt_vaddr, pkt_paddr) = K::dma_alloc_coherent(pages, &self.calls);
        assert(dma_gave::<K>(c, pages, pkt_vaddr, pkt_paddr));
        self.calls.advance();
        if pkt_vaddr == 0 {
            return Err(DevError::NoMemory);
        }
        let rx_vaddr = self.rx_buffers.vaddr(idx);
        io.copy_mem(rx_vaddr, pkt_vaddr, packet_len);
        // Hand the descriptor back to the NIC
        io.write_mem32(desc, Self::rx_desc_opts1(idx == NUM_DESC - 1));
        assert(mem_wrote(io, old(self).current_rx_desc(), rx_ready_opts1(old(self).rx_index() == NUM_DESC - 1)));
        // Move to the next descriptor
        self.rx_cur = (self.rx_cur + 1) % NUM_DESC;
        Ok(RxBuffer { vaddr: pkt_vaddr, len: packet_len })
    }

    /// Interrupt line of the device.
    pub fn get_irq(&self) -> (n: u8)
        ensures
            n == self.irq_line(),
    {
        self.irq
    }

    /// Device name, by series.
    pub fn device_name(&self) -> (s: &'static str)
        ensures
            self.chip_series() == RealtekSeries::Rtl8169 ==> s@ == "rtl8169"@,
            self.chip_series() == RealtekSeries::Rtl8168 ==> s@ == "rtl8168"@,
            self.chip_series() == RealtekSeries::Rtl8111 ==> s@ == "rtl8111"@,
            self.chip_series() == RealtekSeries::Rtl8139 ==> s@ == "rtl8169-series"@,
    {
        match self.series {
            RealtekSeries::Rtl8169 => "rtl8169",
            RealtekSeries::Rtl8168 => "rtl8168",
            RealtekSeries::Rtl8111 => "rtl8111",
            _ => "rtl8169-series",
        }
    }

    /// The MAC address.
    pub fn mac_address(&self) -> (mac: EthernetAddress)
        ensures
            mac.0 == self.mac_bytes(),
    {
        self.mac
    }

    /// Whether the current transmit descriptor belongs to the CPU: the
    /// ownership bit of its first word, read with `read_mem32`, is clear.
    pub fn can_transmit<R: Fn(usize) -> u32>(&self, read_mem32: &R) -> (r: bool)
        requires
            self.wf(),
            self.rings_ready(),
            forall|a: usize| #[trigger] read_mem32.requires((a,)),
        ensures
            exists|v: u32| #[trigger] read_mem32.ensures((self.current_tx_desc(),), v) && r == (v & DESC_OWN == 0),
    {
        let desc = self.tx_desc(self.tx_cur);
        let opts1 = read_mem32(desc);
        assert(desc == self.current_tx_desc());
        assert(read_mem32.ensures((self.current_tx_desc(),), opts1));
        (opts1 & DESC_OWN) == 0
    }

    /// Whether the current receive descriptor has been filled by the NIC:
    /// the ownership bit of its first word, read with `read_mem32`, is
    /// clear.
    pub fn can_receive<R: Fn(usize) -> u32>(&self, read_mem32: &R) -> (r: bool)
        requires
            self.wf(),
            self.rings_ready(),
            forall|a: usize| #[trigger] read_mem32.requires((a,)),
        ensures
            exists|v: u32| #[trigger] read_mem32.ensures((self.current_rx_desc(),), v) && r == (v & DESC_OWN == 0),
    {
        let desc = self.rx_desc(self.rx_cur);
        let opts1 = read_mem32(desc);
        assert(desc == self.current_rx_desc());
        assert(read_mem32.ensures((self.current_rx_desc(),), opts1));
        (opts1 & DESC_OWN) == 0
    }

    /// Receive queue size.
    pub fn rx_queue_size(&self) -> (n: usize)
        ensures
            n == NUM_DESC,
    {
        NUM_DESC
    }

    /// Transmit queue size.
    pub fn tx_queue_size(&self) -> (n: usize)
        ensures
            n == NUM_DESC,
    {
        NUM_DESC
    }

    /// Give back a packet buffer of `len` bytes at `vaddr` (the next kernel
    /// call).
    pub fn recycle_rx_buffer<K: KernelFunc>(&mut self, vaddr: usize, len: usize) -> (r: DevResult)
        requires
            len + 4095 <= usize::MAX,
        ensures
            r is Ok,
            dma_freed::<K>(old(self).calls_made(), vaddr, pages_needed(len as int) as usize),
            final(self).same_but_calls(*old(self)) && final(self).calls_made() == old(self).calls_made() + 1,
            final(self).wf() == old(self).wf(),
            final(self).tx_ring() == old(self).tx_ring(),
            final(self).rx_ring() == old(self).rx_ring(),
    {
        let pages = RealtekCommon::pages_for_size(len);
        K::dma_free_coherent(vaddr, pages, &self.calls);
        self.calls.advance();
        Ok(())
    }

    /// Descriptors are reused automatically: nothing to do.
    pub fn recycle_tx_buffers(&mut self) -> (r: DevResult)
        ensures
            r is Ok,
            *final(self) == *old(self),
    {
        Ok(())
    }

    /// Transmit a frame (see `do_transmit`).
    pub fn transmit<I: DeviceIo>(&mut self, io: &I, data: &[u8]) -> (r: DevResult)
        requires
            old(self).wf(),
            old(self).rings_ready(),
        ensures
            final(self).wf(),
            transmitted(io, *old(self), *final(self), data, r),
    {
        self.do_transmit(io, data)
    }

    /// Receive a packet (see `do_receive`).
    pub fn receive<K: KernelFunc, I: DeviceIo>(&mut self, io: &I) -> (r: DevResult<RxBuffer>)
        requires
            old(self).wf(),
            old(self).rings_ready(),
        ensures
            final(self).wf(),
            received::<K, I>(io, *old(self), *final(self), r),
    {
        self.do_receive::<K, I>(io)
    }

    /// Allocate a transmit buffer of `size` bytes (the next kernel call);
    /// returns its virtual address.
    pub fn alloc_tx_buffer<K: KernelFunc>(&mut self, size: usize) -> (r: DevResult<usize>)
        ensures
            size > BUF_SIZE ==> r == Err::<usize, DevError>(DevError::InvalidParam) && *final(self) == *old(self),
            size <= BUF_SIZE ==> final(self).same_but_calls(*old(self)) && final(self).calls_made() == old(self).calls_made() + 1
                && match r {
                    Ok(v) => v != 0 && allocated::<K>(old(self).calls_made(), pages_needed(size as int), v),
                    Err(e) => e == DevError::NoMemory && alloc_failed::<K>(old(self).calls_made(), pages_needed(size as int)),
                },
            final(self).wf() == old(self).wf(),
            final(self).tx_ring() == old(self).tx_ring(),
            final(self).rx_ring() == old(self).rx_ring(),
    {
        if size > BUF_SIZE {
            return Err(DevError::InvalidParam);
        }
        let pages = RealtekCommon::pages_for_size(size);
        let ghost c = self.calls.count();
        let (vaddr, paddr) = K::dma_alloc_coherent(pages, &self.calls);
        assert(dma_gave::<K>(c, pages, vaddr, paddr));
        self.calls.advance();
        if vaddr == 0 {
            return Err(DevError::NoMemory);
        }
        Ok(vaddr)
    }
}

/// Address of descriptor `idx` of a ring at `base` (address arithmetic
/// wraps).
pub open spec fn descriptor_address(base: usize, idx: usize) -> usize {
    base.wrapping_add((idx * DESC_SIZE) as usize)
}

/// Address of descriptor `idx` of a ring at `base`.
fn desc_addr(base: usize, idx: usize) -> (a: usize)
    requires
        idx < NUM_DESC,
    ensures
        a == descriptor_address(base, idx),
{
    base.wrapping_add(idx * DESC_SIZE)
}

/// The low 32 bits of an address.
pub fn low32(a: usize) -> (v: u32)
    ensures
        v == a as u32,
{
    a as u32
}

/// The high 32 bits of an address.
pub fn high32(a: usize) -> (v: u32)
    ensures
        v == (a as u64 >> 32u64) as u32,
{
    (a as u64 >> 32) as u32
}

} // verus!
