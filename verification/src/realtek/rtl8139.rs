//! RTL8139 Fast Ethernet driver: a receive ring buffer read through a
//! moving read pointer, four transmit buffers used round-robin.
use vstd::prelude::*;

use super::common::{
    alloc_failed, allocated, apply_writes, dma_freed, dma_gave, group_mmio, mem_read_gave, poll8_set, mmio_at, pages_needed, padded_size, polls8_set, read16_gave,
    read32_gave, read8_clear, read8_gave, wrote, wrote_in_order, DeviceIo, IoWrite, MmioOps, RealtekCommon,
    MIN_ETH_FRAME_SIZE,
};
use super::kernel_func::{waited, waits, KernelFunc};
use super::regs::rtl8139::{
    CAPR, CONFIG1, CR, CR_BUFE, CR_RE, CR_RST, CR_TE, IDR0, IDR4, IMR, INT_RER, INT_ROK,
    INT_RXOVW, INT_TER, INT_TOK, MPC, RBSTART, RCR, TCR, TSAD0, TSD0, TSD_OWN, TSD_TOK,
};
use crate::bits::lemma_usize_clear_low2;
use crate::calls::{call_no, CallNo};
use crate::types::{DevError, DevResult, EthernetAddress};

verus! {

broadcast use group_mmio;

/// Number of transmit descriptors.
pub const NUM_TX_DESC: usize = 4;
/// Size of each transmit buffer.
pub const TX_BUF_SIZE: usize = 2048;
/// Size of the receive ring buffer: 8KB + 16 + 1536 bytes of margin.
pub const RX_BUF_SIZE: usize = 9744;
/// Number of software-reset polls (100us apart) before giving up.
pub const RESET_POLLS: u32 = 1000;
/// Transmit configuration: DMA burst 1024 bytes, normal inter-frame gap.
pub const TCR_VALUE: u32 = 0x0300_0600;
/// Receive configuration: accept all packets, wrap, 64K buffer, unlimited DMA burst.
pub const RCR_VALUE: u32 = 0x0F8F;

/// The MAC address held in the ID registers: IDR0..IDR3 as the little-endian
/// word `low`, IDR4..IDR5 as the little-endian half-word `high`.
pub open spec fn mac_from_id_regs(low: u32, high: u16) -> [u8; 6] {
    [
        (low & 0xFF) as u8,
        ((low >> 8u32) & 0xFF) as u8,
        ((low >> 16u32) & 0xFF) as u8,
        ((low >> 24u32) & 0xFF) as u8,
        (high & 0xFF) as u8,
        ((high >> 8u16) & 0xFF) as u8,
    ]
}

/// The read offset after a packet of `total_len` bytes (with its 4-byte
/// header) at offset `cur_rx`: the next multiple of four.
pub open spec fn next_rx_offset(cur_rx: int, total_len: int) -> int {
    (cur_rx + total_len + 4 + 3) - (cur_rx + total_len + 4 + 3) % 4
}

/// Whether a receive header status word reports a good packet.
pub open spec fn rx_status_ok(header: u32) -> bool {
    header & 1 == 1
}

/// Whether a packet length taken from a receive header is acceptable.
pub open spec fn rx_len_valid(total_len: int) -> bool {
    64 <= total_len <= 1522
}

/// The packet length (CRC included) of a receive header word.
pub open spec fn rx_header_len(header: u32) -> int {
    (header >> 16u32) as int
}

/// A read offset past the end of the ring buffer wrapped back into it.
pub open spec fn rx_wrap(n: int) -> int {
    if n >= RX_BUF_SIZE { n % (RX_BUF_SIZE as int) } else { n }
}

/// The value written to CAPR for the read offset `cur_rx`.
pub open spec fn capr_for(cur_rx: usize) -> u16 {
    (cur_rx as u16).wrapping_sub(16)
}

/// The register writes that enable and configure the controller once its
/// buffers are allocated, `cr` being the command register's value: enable
/// the transmitter and the receiver (before configuring them), transmit and
/// receive configuration, transmit buffer addresses, receive buffer
/// address, clear the missed packet counter, unmask interrupts.
pub open spec fn setup_sequence(cr: u8, tx_paddrs: Seq<usize>, rx_paddr: usize) -> Seq<IoWrite> {
    seq![
        IoWrite::Byte(CR, (cr & !0x1Cu8) | CR_TE | CR_RE),
        IoWrite::Word(TCR, TCR_VALUE),
        IoWrite::Word(RCR, RCR_VALUE),
        IoWrite::Word(TSAD0, tx_paddrs[0] as u32),
        IoWrite::Word((TSAD0 + 4) as u16, tx_paddrs[1] as u32),
        IoWrite::Word((TSAD0 + 8) as u16, tx_paddrs[2] as u32),
        IoWrite::Word((TSAD0 + 12) as u16, tx_paddrs[3] as u32),
        IoWrite::Word(RBSTART, rx_paddr as u32),
        IoWrite::Word(MPC, 0u32),
        IoWrite::Half(IMR, INT_ROK | INT_TOK | INT_RER | INT_TER | INT_RXOVW),
    ]
}

/// From access `t` of the window at `base` on, `d`'s set-up was done: the
/// command register read, the `setup_sequence` writes in order, then the
/// MAC address read from IDR0 and IDR4; 13 accesses in all.
pub open spec fn configured_from<I: DeviceIo>(io: &I, base: usize, t: int, d: Rtl8139Driver) -> bool {
    &&& exists|cr: u8| #[trigger] read8_gave(io, mmio_at(base, t), CR, cr)
        && wrote_in_order(io, base, t + 1, setup_sequence(cr, d.tx_paddrs(), d.rx_paddr()))
    &&& exists|lo: u32, hi: u16| #[trigger] read32_gave(io, mmio_at(base, t + 11), IDR0, lo)
        && #[trigger] read16_gave(io, mmio_at(base, t + 12), IDR4, hi) && d.mac_bytes() == mac_from_id_regs(lo, hi)
    &&& d.accesses() == t + 13
}

/// From access `k` of the window at `base` on, the reset completed after
/// `n` polls that found the reset bit set: the next poll found it clear.
pub open spec fn reset_seen<I: DeviceIo>(io: &I, base: usize, k: int, n: int) -> bool {
    0 <= n <= RESET_POLLS && polls8_set(io, base, k, n, CR, CR_RST) && read8_clear(io, base, k + n, CR, CR_RST)
}

/// `d`'s buffers came from kernel calls `c` to `c + 4`, one call each: the
/// receive ring buffer from call `c`, transmit buffer `i` from call
/// `c + 1 + i`; none has a null address.
pub open spec fn buffers_from<K: KernelFunc>(d: Rtl8139Driver, c: int) -> bool {
    let rx_pages = pages_needed(RX_BUF_SIZE as int) as usize;
    let tx_pages = pages_needed(TX_BUF_SIZE as int) as usize;
    &&& d.rx_vaddr() != 0
    &&& dma_gave::<K>(c, rx_pages, d.rx_vaddr(), d.rx_paddr())
    &&& forall|i: int| 0 <= i < NUM_TX_DESC ==> #[trigger] d.tx_vaddrs()[i] != 0
        && dma_gave::<K>(c + 1 + i, tx_pages, d.tx_vaddrs()[i], d.tx_paddrs()[i])
}

/// `d` is a driver just created for the window at `base` and the
/// interrupt line `irq`: no access made, no kernel call made, MAC address
/// zero, no buffer, ring positions at the start.
pub open spec fn fresh_driver(d: Rtl8139Driver, base: usize, irq: u8) -> bool {
    &&& d.base() == base && d.accesses() == 0 && d.irq_line() == irq && d.calls_made() == 0
    &&& d.mac_bytes()@ == seq![0u8, 0, 0, 0, 0, 0]
    &&& d.tx_index() == 0 && d.rx_offset() == 0
    &&& d.tx_vaddrs() == seq![0usize, 0, 0, 0] && d.tx_paddrs() == seq![0usize, 0, 0, 0]
    &&& d.rx_vaddr() == 0 && d.rx_paddr() == 0
}

/// What initialization did, from the driver `d0` to `d1`, returning `r`:
/// power on, the reset command, the reset polls with a 100us wait (the next
/// kernel calls) between two of them, then one allocation per buffer and
/// the set-up (see `configured_from`). Numbers of accesses and calls count
/// from `d0`'s.
pub open spec fn initialized<K: KernelFunc, I: DeviceIo>(io: &I, d0: Rtl8139Driver, d1: Rtl8139Driver, r: DevResult) -> bool {
    let b = d0.base();
    let s = d0.accesses();
    let c = d0.calls_made();
    let rx_pages = pages_needed(RX_BUF_SIZE as int);
    let tx_pages = pages_needed(TX_BUF_SIZE as int);
    // power on, then the reset command
    &&& wrote(io, mmio_at(b, s), IoWrite::Byte(CONFIG1, 0))
    &&& wrote(io, mmio_at(b, s + 1), IoWrite::Byte(CR, CR_RST))
    // the reset never completed: 1001 polls, 1000 waits between them
    &&& r == Err::<(), DevError>(DevError::BadState) ==>
        polls8_set(io, b, s + 2, (RESET_POLLS + 1) as int, CR, CR_RST)
        && d1.accesses() == s + 3 + RESET_POLLS
        && waits::<K>(c, RESET_POLLS as int, 100) && d1.calls_made() == c + RESET_POLLS
    // a buffer could not be had after the reset: no access after it
    &&& r == Err::<(), DevError>(DevError::NoMemory) ==>
        exists|n: int| #[trigger] reset_seen(io, b, s + 2, n) && d1.accesses() == s + 3 + n
            && waits::<K>(c, n, 100)
            && (alloc_failed::<K>(c + n, rx_pages) || exists|i: int| 0 <= i < NUM_TX_DESC
                && #[trigger] alloc_failed::<K>(c + n + 1 + i, tx_pages))
    // success: the buffers allocated, one call each, then the set-up in order
    &&& r is Ok ==> exists|n: int| #[trigger] reset_seen(io, b, s + 2, n)
            && waits::<K>(c, n, 100)
            && buffers_from::<K>(d1, c + n)
            && configured_from(io, b, s + 3 + n, d1)
            && d1.calls_made() == c + n + 1 + NUM_TX_DESC
    &&& r matches Err(e) ==> e == DevError::BadState || e == DevError::NoMemory
    &&& d1.tx_index() == d0.tx_index()
    &&& d1.rx_offset() == d0.rx_offset()
    &&& d1.base() == b
    &&& d1.irq_line() == d0.irq_line()
}

/// What shutting down did, from the driver `d0` to `d1`: the command
/// register cleared (receiver and transmitter off), then the buffers held
/// freed by the kernel calls `c` (the receive ring buffer) and `c + 1 + i`
/// (transmit buffer `i`), `c` being `d0`'s count of calls; a number whose
/// buffer is not held goes unused. `d1` holds no buffer.
pub open spec fn shut_down<K: KernelFunc, I: DeviceIo>(io: &I, d0: Rtl8139Driver, d1: Rtl8139Driver) -> bool {
    let c = d0.calls_made();
    &&& wrote(io, mmio_at(d0.base(), d0.accesses()), IoWrite::Byte(CR, 0))
    &&& d1.accesses() == d0.accesses() + 1
    &&& d0.rx_vaddr() != 0 ==> dma_freed::<K>(c, d0.rx_vaddr(), pages_needed(RX_BUF_SIZE as int) as usize)
    &&& forall|i: int| 0 <= i < NUM_TX_DESC && #[trigger] d0.tx_vaddrs()[i] != 0
        ==> dma_freed::<K>(c + 1 + i, d0.tx_vaddrs()[i], pages_needed(TX_BUF_SIZE as int) as usize)
    &&& d1.calls_made() == c + 1 + NUM_TX_DESC
    &&& d1.rx_vaddr() == 0 && d1.rx_paddr() == 0
    &&& d1.tx_vaddrs() == seq![0usize, 0, 0, 0]
    &&& d1.tx_paddrs() == seq![0usize, 0, 0, 0]
    &&& d1.tx_index() == d0.tx_index()
    &&& d1.rx_offset() == d0.rx_offset()
    &&& d1.mac_bytes() == d0.mac_bytes()
    &&& d1.base() == d0.base()
    &&& d1.irq_line() == d0.irq_line()
}

/// What a transmit attempt of the frame `data` did, from the driver `d0`
/// to `d1`, returning `r`: the transmit status register read, and for a
/// free descriptor the frame copied and its (padded) length written.
pub open spec fn transmitted<I: DeviceIo>(io: &I, d0: Rtl8139Driver, d1: Rtl8139Driver, data: &[u8], r: DevResult) -> bool {
    let b = d0.base();
    let s = d0.accesses();
    let idx = d0.tx_index();
    &&& data@.len() > TX_BUF_SIZE ==> r == Err::<(), DevError>(DevError::InvalidParam)
    &&& r is Ok ==> d1.tx_index() == (idx + 1) % (NUM_TX_DESC as int)
    &&& r matches Err(e) ==> (e == DevError::InvalidParam || e == DevError::Again) && d1.tx_index() == idx
    &&& (r matches Err(e) && e == DevError::InvalidParam ==> data@.len() > TX_BUF_SIZE)
    &&& data@.len() <= TX_BUF_SIZE ==> exists|st: u32| #[trigger] read32_gave(io, mmio_at(b, s), (TSD0 + 4 * idx) as u16, st)
        && (r is Ok <==> st & (TSD_OWN | TSD_TOK) != 0)
    &&& r is Ok ==> call_ensures(I::copy_to_mem, (io, d0.tx_vaddrs()[idx as int], data), ())
        && wrote(io, mmio_at(b, s + 1), IoWrite::Word((TSD0 + 4 * idx) as u16, padded_size(data@.len() as int) as u32))
        && d1.accesses() == s + 2
    &&& r == Err::<(), DevError>(DevError::Again) ==> d1.accesses() == s + 1
    &&& r == Err::<(), DevError>(DevError::InvalidParam) ==> d1.accesses() == s
    &&& d1.tx_vaddrs() == d0.tx_vaddrs()
    &&& d1.tx_paddrs() == d0.tx_paddrs()
    &&& d1.rx_vaddr() == d0.rx_vaddr()
    &&& d1.rx_offset() == d0.rx_offset()
    &&& d1.mac_bytes() == d0.mac_bytes()
    &&& d1.base() == b
}

/// What a receive attempt did, from the driver `d0` to `d1`, returning `r`:
/// the command register read; the header word of the next packet; for a
/// good packet, a buffer allocated for it (the next kernel call), the
/// packet copied there, the read offset moved past it and CAPR written;
/// for a bad one, the packet skipped.
pub open spec fn received<K: KernelFunc, I: DeviceIo>(io: &I, d0: Rtl8139Driver, d1: Rtl8139Driver, r: DevResult<RxPacket>) -> bool {
    let b = d0.base();
    let s = d0.accesses();
    let c = d0.calls_made();
    &&& r matches Ok(p) ==> 60 <= p.len <= 1518 && p.vaddr != 0 && d1.rx_offset() < RX_BUF_SIZE && d1.rx_offset() % 4 == 0
    &&& r matches Err(e) ==> e == DevError::Again || e == DevError::BadState || e == DevError::NoMemory
    // A packet taken: the command register read, its header word, a buffer
    // allocated for it, the copy, the new offset and CAPR
    &&& r matches Ok(p) ==> (exists|cr: u8| #[trigger] read8_gave(io, mmio_at(b, s), CR, cr) && cr & CR_BUFE == 0)
    &&& r matches Ok(p) ==> allocated::<K>(c, pages_needed(p.len as int), p.vaddr) && d1.calls_made() == c + 1
    &&& r matches Ok(p) ==> exists|h: u32| #[trigger] mem_read_gave(io, d0.header_addr(), h)
        && rx_status_ok(h) && rx_len_valid(rx_header_len(h)) && p.len == rx_header_len(h) - 4
        && d1.rx_offset() == rx_wrap(next_rx_offset(d0.rx_offset() as int, rx_header_len(h)))
        && call_ensures(I::copy_mem, (io, (d0.header_addr() + 4) as usize, p.vaddr, p.len), ())
        && wrote(io, mmio_at(b, s + 1), IoWrite::Half(CAPR, capr_for(d1.rx_offset())))
        && d1.accesses() == s + 2
    // A good packet with no buffer for it: left in the ring
    &&& r == Err::<RxPacket, DevError>(DevError::NoMemory) ==> exists|h: u32|
        #[trigger] mem_read_gave(io, d0.header_addr(), h) && rx_status_ok(h) && rx_len_valid(rx_header_len(h))
        && alloc_failed::<K>(c, pages_needed(rx_header_len(h) - 4)) && d1.calls_made() == c + 1
        && d1.rx_offset() == d0.rx_offset() && d1.accesses() == s + 1
    // A packet skipped: its header word, the new offset and CAPR
    &&& r == Err::<RxPacket, DevError>(DevError::BadState) ==> exists|h: u32|
        #[trigger] mem_read_gave(io, d0.header_addr(), h) && rx_status_ok(h) && !rx_len_valid(rx_header_len(h))
        && d1.rx_offset() == next_rx_offset(d0.rx_offset() as int, rx_header_len(h))
        && d1.rx_offset() % 4 == 0 && d1.rx_offset() > d0.rx_offset()
        && wrote(io, mmio_at(b, s + 1), IoWrite::Half(CAPR, capr_for(d1.rx_offset())))
        && d1.accesses() == s + 2 && d1.calls_made() == c
    // Nothing to take: the ring is empty, or a packet not received OK is skipped
    &&& r == Err::<RxPacket, DevError>(DevError::Again) ==> d1.calls_made() == c && (
        (exists|cr: u8| #[trigger] read8_gave(io, mmio_at(b, s), CR, cr) && cr & CR_BUFE != 0
            && d1.rx_offset() == d0.rx_offset() && d1.accesses() == s + 1)
        || (exists|h: u32| #[trigger] mem_read_gave(io, d0.header_addr(), h) && !rx_status_ok(h)
            && d1.rx_offset() == next_rx_offset(d0.rx_offset() as int, rx_header_len(h))
            && wrote(io, mmio_at(b, s + 1), IoWrite::Half(CAPR, capr_for(d1.rx_offset())))
            && d1.accesses() == s + 2))
    &&& d1.tx_index() == d0.tx_index()
    &&& d1.tx_vaddrs() == d0.tx_vaddrs()
    &&& d1.rx_vaddr() == d0.rx_vaddr()
    &&& d1.mac_bytes() == d0.mac_bytes()
    &&& d1.base() == b
}

/// What a receive attempt produced, for the registers and memory to be
/// updated.
pub struct RxPacket {
    /// Virtual address of the buffer that holds the packet.
    pub vaddr: usize,
    /// Length of the packet, without CRC.
    pub len: usize,
}

/// RTL8139 Fast Ethernet driver state.
pub struct Rtl8139Driver {
    mmio: MmioOps,
    irq: u8,
    mac: EthernetAddress,
    tx_cur: usize,
    tx_buf_vaddr: [usize; 4],
    tx_buf_paddr: [usize; 4],
    rx_buf_vaddr: usize,
    rx_buf_paddr: usize,
    cur_rx: usize,
    calls: CallNo,
}

impl Rtl8139Driver {
    #[verifier::type_invariant]
    spec fn tx_cur_in_ring(self) -> bool {
        self.tx_cur < NUM_TX_DESC
    }

    /// Base address of the register window.
    pub closed spec fn base(self) -> usize {
        self.mmio.base()
    }

    /// Number of register accesses made so far.
    pub closed spec fn accesses(self) -> int {
        self.mmio.step()
    }

    /// Number of calls made to the kernel services so far.
    pub closed spec fn calls_made(self) -> int {
        self.calls.count()
    }

    /// The driver's state but for its register window and its count of
    /// kernel calls: irq, MAC, buffers and ring positions.
    pub closed spec fn same_state(self, other: Self) -> bool {
        &&& self.irq == other.irq
        &&& self.mac == other.mac
        &&& self.tx_cur == other.tx_cur
        &&& self.tx_buf_vaddr == other.tx_buf_vaddr
        &&& self.tx_buf_paddr == other.tx_buf_paddr
        &&& self.rx_buf_vaddr == other.rx_buf_vaddr
        &&& self.rx_buf_paddr == other.rx_buf_paddr
        &&& self.cur_rx == other.cur_rx
    }

    /// Interrupt line.
    pub closed spec fn irq_line(self) -> u8 {
        self.irq
    }

    /// The MAC address as last read from the device.
    pub closed spec fn mac_bytes(self) -> [u8; 6] {
        self.mac.0
    }

    /// Index of the next transmit descriptor.
    pub closed spec fn tx_index(self) -> usize {
        self.tx_cur
    }

    /// Virtual addresses of the transmit buffers.
    pub closed spec fn tx_vaddrs(self) -> Seq<usize> {
        self.tx_buf_vaddr@
    }

    /// Physical addresses of the transmit buffers.
    pub closed spec fn tx_paddrs(self) -> Seq<usize> {
        self.tx_buf_paddr@
    }

    /// Virtual address of the receive ring buffer.
    pub closed spec fn rx_vaddr(self) -> usize {
        self.rx_buf_vaddr
    }

    /// Physical address of the receive ring buffer.
    pub closed spec fn rx_paddr(self) -> usize {
        self.rx_buf_paddr
    }

    /// Read offset in the receive ring buffer.
    pub closed spec fn rx_offset(self) -> usize {
        self.cur_rx
    }

    /// The register window, as it stands after the accesses made so far.
    pub fn mmio(&self) -> (m: &MmioOps)
        ensures
            *m == mmio_at(self.base(), self.accesses()),
    {
        &self.mmio
    }

    /// Create a new RTL8139 driver instance.
    pub fn new(base_addr: usize, irq: u8) -> (r: DevResult<Self>)
        ensures
            r matches Ok(d) && fresh_driver(d, base_addr, irq),
    {
        let d = Rtl8139Driver {
            mmio: MmioOps::new(base_addr),
            irq,
            mac: EthernetAddress([0; 6]),
            tx_cur: 0,
            tx_buf_vaddr: [0; 4],
            tx_buf_paddr: [0; 4],
            rx_buf_vaddr: 0,
            rx_buf_paddr: 0,
            cur_rx: 0,
            calls: CallNo::first(),
        };
        assert(d.tx_buf_vaddr@ =~= seq![0usize, 0, 0, 0]);
        assert(d.mac.0@ =~= seq![0u8, 0, 0, 0, 0, 0]);
        assert(d.tx_buf_paddr@ =~= seq![0usize, 0, 0, 0]);
        Ok(d)
    }

    /// The MAC address held in the ID registers (see `mac_from_id_regs`).
    pub fn mac_from_regs(low: u32, high: u16) -> (mac: EthernetAddress)
        ensures
            mac.0 == mac_from_id_regs(low, high),
    {
        let mac = [
            (low & 0xFF) as u8,
            ((low >> 8) & 0xFF) as u8,
            ((low >> 16) & 0xFF) as u8,
            ((low >> 24) & 0xFF) as u8,
            (high & 0xFF) as u8,
            ((high >> 8) & 0xFF) as u8,
        ];
        assert(mac@ =~= mac_from_id_regs(low, high)@);
        EthernetAddress(mac)
    }

    /// Read the MAC address from the ID registers: IDR0 (32 bits), then
    /// IDR4 (16 bits).
    fn read_mac_address<I: DeviceIo>(&mut self, io: &I)
        ensures
            exists|lo: u32, hi: u16| #[trigger] read32_gave(io, mmio_at(old(self).base(), old(self).accesses()), IDR0, lo)
                && #[trigger] read16_gave(io, mmio_at(old(self).base(), old(self).accesses() + 1), IDR4, hi)
                && final(self).mac_bytes() == mac_from_id_regs(lo, hi),
            final(self).base() == old(self).base(),
            final(self).accesses() == old(self).accesses() + 2,
            final(self).tx_index() == old(self).tx_index(),
            final(self).tx_vaddrs() == old(self).tx_vaddrs(),
            final(self).tx_paddrs() == old(self).tx_paddrs(),
            final(self).rx_vaddr() == old(self).rx_vaddr(),
            final(self).rx_paddr() == old(self).rx_paddr(),
            final(self).rx_offset() == old(self).rx_offset(),
            final(self).irq_line() == old(self).irq_line(),
            final(self).calls_made() == old(self).calls_made(),
    {
        proof {
            use_type_invariant(&*self);
        }
        let ghost b = self.mmio.base();
        let ghost s = self.mmio.step();
        let mut m = self.mmio;
        let mac_low = m.read32(io, IDR0);
        assert(read32_gave(io, mmio_at(b, s), IDR0, mac_low));
        let mac_high = m.read16(io, IDR4);
        assert(read16_gave(io, mmio_at(b, s + 1), IDR4, mac_high));
        self.mmio = m;
        self.mac = Self::mac_from_regs(mac_low, mac_high);
        assert(self.mac_bytes() == mac_from_id_regs(mac_low, mac_high));
        assert(read32_gave(io, mmio_at(old(self).base(), old(self).accesses()), IDR0, mac_low));
        assert(read16_gave(io, mmio_at(old(self).base(), old(self).accesses() + 1), IDR4, mac_high));
    }

    /// Perform a software reset: set the reset bit and poll, 100us apart,
    /// until the device clears it: `BadState` after 1001 polls that all
    /// found it set. A 100us wait (the next kernel calls) follows each poll
    /// that found the bit set but the last.
    fn software_reset<K: KernelFunc, I: DeviceIo>(&mut self, io: &I) -> (r: DevResult)
        ensures
            ({
                let b = old(self).base();
                let s = old(self).accesses();
                let c = old(self).calls_made();
                &&& wrote(io, mmio_at(b, s), IoWrite::Byte(CR, CR_RST))
                &&& r is Ok ==> exists|n: int| #[trigger] reset_seen(io, b, s + 1, n) && final(self).accesses() == s + 2 + n
                    && waits::<K>(c, n, 100) && final(self).calls_made() == c + n
                &&& r matches Err(e) ==> e == DevError::BadState
                    && polls8_set(io, b, s + 1, (RESET_POLLS + 1) as int, CR, CR_RST)
                    && final(self).accesses() == s + 2 + RESET_POLLS
                    && waits::<K>(c, RESET_POLLS as int, 100) && final(self).calls_made() == c + RESET_POLLS
            }),
            final(self).base() == old(self).base(),
            final(self).same_state(*old(self)),
    {
        proof {
            use_type_invariant(&*self);
        }
        let ghost b = self.mmio.base();
        let ghost s = self.mmio.step();
        let ghost c = self.calls.count();
        let mut m = self.mmio;
        m.write8(io, CR, CR_RST);
        self.mmio = m;
        let mut timeout: u32 = RESET_POLLS;
        loop
            invariant_except_break
                self.mmio == mmio_at(b, s + 1 + (RESET_POLLS - timeout)),
                polls8_set(io, b, s + 1, (RESET_POLLS - timeout) as int, CR, CR_RST),
                self.calls == call_no(c + (RESET_POLLS - timeout)),
                waits::<K>(c, (RESET_POLLS - timeout) as int, 100),
            invariant
                timeout <= RESET_POLLS,
                self.tx_cur < NUM_TX_DESC,
                b == old(self).base() && s == old(self).accesses() && c == old(self).calls_made(),
                self.same_state(*old(self)),
                wrote(io, mmio_at(b, s), IoWrite::Byte(CR, CR_RST)),
            ensures
                exists|n: int| #[trigger] reset_seen(io, b, s + 1, n) && self.mmio == mmio_at(b, s + 2 + n)
                    && waits::<K>(c, n, 100) && self.calls == call_no(c + n),
                self.same_state(*old(self)),
            decreases timeout,
        {
            let ghost k: int = (RESET_POLLS - timeout) as int;
            let mut m = self.mmio;
            assert(m.base() == b && m.step() == s + 1 + k);
            let v = m.read8(io, CR);
            self.mmio = m;
            assert(read8_gave(io, mmio_at(b, s + 1 + k), CR, v));
            if (v & CR_RST) == 0 {
                assert(read8_clear(io, b, s + 1 + k, CR, CR_RST));
                assert(reset_seen(io, b, s + 1, k));
                break;
            }
            assert(poll8_set(io, b, s + 1, k, CR, CR_RST));
            if timeout == 0 {
                return Err(DevError::BadState);
            }
            timeout = timeout - 1;
            let mut cn = self.calls;
            K::busy_wait(core::time::Duration::from_micros(100), &cn);
            assert(waited::<K>(c, k, 100));
            cn.advance();
            self.calls = cn;
        }
        Ok(())
    }

    /// Initialize the hardware: power on, reset, allocate the receive ring
    /// buffer and the four transmit buffers, enable the transmitter and the
    /// receiver, configure them, program the buffer addresses, clear the
    /// missed packet counter, unmask interrupts and read the MAC address.
    /// The register accesses come in that order and are the only ones; the
    /// kernel calls are the reset's waits, then one allocation per buffer.
    pub fn init<K: KernelFunc, I: DeviceIo>(&mut self, io: &I) -> (r: DevResult)
        ensures
            initialized::<K, I>(io, *old(self), *final(self), r),
    {
        proof {
            use_type_invariant(&*self);
        }
        let ghost b = self.mmio.base();
        let ghost s = self.mmio.step();
        let ghost c = self.calls.count();
        // Power on the device
        let mut m = self.mmio;
        m.write8(io, CONFIG1, 0x00);
        self.mmio = m;
        assert(self.accesses() == s + 1 && self.base() == b && self.calls_made() == c);
        // Software reset
        let reset = self.software_reset::<K, I>(io);
        if reset.is_err() {
            assert(s + 1 + 2 + RESET_POLLS == s + 3 + RESET_POLLS);
            return reset;
        }
        let ghost n: int = choose|n: int| #[trigger] reset_seen(io, b, s + 1 + 1, n) && self.accesses() == s + 1 + 2 + n
            && waits::<K>(c, n, 100) && self.calls_made() == c + n;
        assert(reset_seen(io, b, s + 2, n) && self.accesses() == s + 3 + n);
        // Allocate the receive buffer
        let rx_pages = RealtekCommon::pages_for_size(RX_BUF_SIZE);
        assert(pages_needed(RX_BUF_SIZE as int) as usize == rx_pages);
        let mut cn = self.calls;
        let (rx_vaddr, rx_paddr) = K::dma_alloc_coherent(rx_pages, &cn);
        assert(dma_gave::<K>(c + n, rx_pages, rx_vaddr, rx_paddr));
        cn.advance();
        self.calls = cn;
        if rx_vaddr == 0 {
            assert(alloc_failed::<K>(c + n, pages_needed(RX_BUF_SIZE as int)));
            return Err(DevError::NoMemory);
        }
        self.rx_buf_vaddr = rx_vaddr;
        self.rx_buf_paddr = rx_paddr;
        // Allocate the transmit buffers
        let tx_pages = RealtekCommon::pages_for_size(TX_BUF_SIZE);
        assert(pages_needed(TX_BUF_SIZE as int) as usize == tx_pages);
        let mut i: usize = 0;
        while i < NUM_TX_DESC
            invariant
                i <= NUM_TX_DESC,
                self.tx_cur < NUM_TX_DESC,
                self.rx_buf_vaddr == rx_vaddr && self.rx_buf_paddr == rx_paddr,
                rx_vaddr != 0,
                dma_gave::<K>(c + n, rx_pages, rx_vaddr, rx_paddr),
                rx_pages == pages_needed(RX_BUF_SIZE as int),
                tx_pages == pages_needed(TX_BUF_SIZE as int),
                forall|j: int| 0 <= j < i ==> #[trigger] self.tx_buf_vaddr@[j] != 0
                    && dma_gave::<K>(c + n + 1 + j, tx_pages, self.tx_buf_vaddr@[j], self.tx_buf_paddr@[j]),
                self.calls == call_no(c + n + 1 + i),
                c == old(self).calls_made(),
                waits::<K>(c, n, 100),
                self.tx_cur == old(self).tx_cur,
                self.cur_rx == old(self).cur_rx,
                self.irq == old(self).irq,
                self.mmio == mmio_at(b, s + 3 + n),
                b == old(self).base() && s == old(self).accesses(),
                reset_seen(io, b, s + 2, n),
                wrote(io, mmio_at(b, s), IoWrite::Byte(CONFIG1, 0)),
                wrote(io, mmio_at(b, s + 1), IoWrite::Byte(CR, CR_RST)),
            decreases NUM_TX_DESC - i,
        {
            let mut cn = self.calls;
            let (tx_vaddr, tx_paddr) = K::dma_alloc_coherent(tx_pages, &cn);
            assert(dma_gave::<K>(c + n + 1 + i, tx_pages, tx_vaddr, tx_paddr));
            cn.advance();
            self.calls = cn;
            if tx_vaddr == 0 {
                assert(alloc_failed::<K>(c + n + 1 + i, pages_needed(TX_BUF_SIZE as int)));
                assert(self.accesses() == s + 3 + n);
                return Err(DevError::NoMemory);
            }
            self.tx_buf_vaddr[i] = tx_vaddr;
            self.tx_buf_paddr[i] = tx_paddr;
            i = i + 1;
        }
        // Enable Tx/Rx, then configure the controller
        let ghost t = s + 3 + n;
        let mut m = self.mmio;
        let cr = m.read8(io, CR);
        assert(read8_gave(io, mmio_at(b, t), CR, cr));
        let writes = self.setup_writes(cr);
        assert(writes@.len() == 10);
        apply_writes(io, &mut m, &writes);
        assert(wrote_in_order(io, b, t + 1, setup_sequence(cr, self.tx_paddrs(), self.rx_paddr())));
        assert(m == mmio_at(b, t + 11));
        self.mmio = m;
        // MAC address
        let ghost pre = *self;
        assert(pre.base() == b && pre.accesses() == t + 11);
        self.read_mac_address(io);
        assert(mmio_at(pre.base(), pre.accesses()) == mmio_at(b, t + 11));
        assert(mmio_at(pre.base(), pre.accesses() + 1) == mmio_at(b, t + 12));
        assert(self.accesses() == t + 13);
        assert(wrote_in_order(io, b, t + 1, setup_sequence(cr, self.tx_paddrs(), self.rx_paddr())));
        assert(configured_from(io, b, t, *self));
        assert(buffers_from::<K>(*self, c + n));
        Ok(())
    }

    /// The register writes of `setup_sequence` for this driver's buffers.
    pub fn setup_writes(&self, cr: u8) -> (w: Vec<IoWrite>)
        ensures
            w@ == setup_sequence(cr, self.tx_paddrs(), self.rx_paddr()),
    {
        proof {
            use_type_invariant(self);
        }
        let mut w: Vec<IoWrite> = Vec::new();
        w.push(IoWrite::Byte(CR, (cr & !0x1Cu8) | CR_TE | CR_RE));
        w.push(IoWrite::Word(TCR, TCR_VALUE));
        w.push(IoWrite::Word(RCR, RCR_VALUE));
        let mut k: usize = 0;
        while k < NUM_TX_DESC
            invariant
                k <= NUM_TX_DESC,
                self.tx_buf_paddr@.len() == NUM_TX_DESC,
                w@.len() == 3 + k,
                w@[0] == IoWrite::Byte(CR, (cr & !0x1Cu8) | CR_TE | CR_RE),
                w@[1] == IoWrite::Word(TCR, TCR_VALUE),
                w@[2] == IoWrite::Word(RCR, RCR_VALUE),
                forall|j: int| 0 <= j < k ==> #[trigger] w@[3 + j] == IoWrite::Word((TSAD0 + 4 * j) as u16, self.tx_buf_paddr@[j] as u32),
            decreases NUM_TX_DESC - k,
        {
            w.push(IoWrite::Word(Self::tsad_offset(k), self.tx_buf_paddr[k] as u32));
            k = k + 1;
        }
        w.push(IoWrite::Word(RBSTART, self.rx_buf_paddr as u32));
        w.push(IoWrite::Word(MPC, 0));
        w.push(IoWrite::Half(IMR, INT_ROK | INT_TOK | INT_RER | INT_TER | INT_RXOVW));
        proof {
            let e = setup_sequence(cr, self.tx_paddrs(), self.rx_paddr());
            assert(w@[3 + 0int] == e[3]);
            assert(w@[3 + 1int] == e[4]);
            assert(w@[3 + 2int] == e[5]);
            assert(w@[3 + 3int] == e[6]);
            assert(w@ =~= e);
        }
        w
    }

    /// Offset of the transmit start address register of descriptor `idx`.
    pub fn tsad_offset(idx: usize) -> (off: u16)
        requires
            idx < NUM_TX_DESC,
        ensures
            off == TSAD0 + 4 * idx,
    {
        TSAD0 + (idx as u16) * 4
    }

    /// Offset of the transmit status register of descriptor `idx`.
    pub fn tsd_offset(idx: usize) -> (off: u16)
        requires
            idx < NUM_TX_DESC,
        ensures
            off == TSD0 + 4 * idx,
    {
        TSD0 + (idx as u16) * 4
    }

    /// Whether a transmit status value shows the descriptor free again
    /// (DMA done or transmit OK).
    pub fn tx_desc_available(status: u32) -> (r: bool)
        ensures
            r == (status & (TSD_OWN | TSD_TOK) != 0),
    {
        (status & (TSD_OWN | TSD_TOK)) != 0
    }

    /// The length written to the transmit status register for a frame of
    /// `len` bytes: padded to the minimum Ethernet frame size.
    pub fn tx_frame_len(len: usize) -> (n: u32)
        requires
            len <= TX_BUF_SIZE,
        ensures
            n == padded_size(len as int),
    {
        if len < MIN_ETH_FRAME_SIZE {
            MIN_ETH_FRAME_SIZE as u32
        } else {
            len as u32
        }
    }

    /// Transmit a frame: copy it to the current transmit buffer and start
    /// the transmission by writing its (padded) length; the next descriptor
    /// is used next time.
    pub fn do_transmit<I: DeviceIo>(&mut self, io: &I, data: &[u8]) -> (r: DevResult)
        ensures
            transmitted(io, *old(self), *final(self), data, r),
            final(self).calls_made() == old(self).calls_made(),
    {
        proof {
            use_type_invariant(&*self);
        }
        if data.len() > TX_BUF_SIZE {
            return Err(DevError::InvalidParam);
        }
        let idx = self.tx_cur;
        // Check if the descriptor is available
        let mut m = self.mmio;
        let status = m.read32(io, Self::tsd_offset(idx));
        self.mmio = m;
        assert(read32_gave(io, mmio_at(old(self).base(), old(self).accesses()), (TSD0 + 4 * old(self).tx_index()) as u16, status));
        if !Self::tx_desc_available(status) {
            return Err(DevError::Again);
        }
        // Copy data to the transmit buffer
        io.copy_to_mem(self.tx_buf_vaddr[idx], data);
        // Start transmission by writing the padded length
        let len = Self::tx_frame_len(data.len());
        m.write32(io, Self::tsd_offset(idx), len);
        self.mmio = m;
        // Move to the next descriptor
        self.tx_cur = (self.tx_cur + 1) % NUM_TX_DESC;
        Ok(())
    }

    /// The read offset after a packet of `total_len` bytes at `cur_rx`.
    pub fn advance_rx_offset(cur_rx: usize, total_len: usize) -> (n: usize)
        requires
            cur_rx + total_len + 7 <= usize::MAX,
        ensures
            n == next_rx_offset(cur_rx as int, total_len as int),
            n % 4 == 0,
            cur_rx + total_len + 4 <= n < cur_rx + total_len + 8,
    {
        let y = cur_rx + total_len + 4 + 3;
        proof {
            lemma_usize_clear_low2(y);
        }
        y & !3usize
    }

    /// What the header word of a received packet says: `Again` for a packet
    /// not received OK, `BadState` for a length (CRC included) outside
    /// 64..=1522, otherwise the packet length without the 4-byte CRC.
    pub fn rx_header_outcome(header: u32) -> (r: DevResult<usize>)
        ensures
            !rx_status_ok(header) ==> r == Err::<usize, DevError>(DevError::Again),
            rx_status_ok(header) && !rx_len_valid(rx_header_len(header))
                ==> r == Err::<usize, DevError>(DevError::BadState),
            rx_status_ok(header) && rx_len_valid(rx_header_len(header))
                ==> r == Ok::<usize, DevError>((rx_header_len(header) - 4) as usize),
            rx_header_len(header) <= 0xFFFF,
    {
        let status = header & 0xFFFF;
        let total_len = (header >> 16) as usize;
        proof {
            assert(header >> 16u32 <= 0xFFFFu32) by (bit_vector);
            assert((header & 0xFFFFu32) & 1u32 == header & 1u32) by (bit_vector);
            assert(header & 1u32 == 0u32 || header & 1u32 == 1u32) by (bit_vector);
        }
        // Check receive OK status
        if (status & 0x01) == 0 {
            return Err(DevError::Again);
        }
        // Validate the packet length (including the 4-byte CRC)
        if total_len < 64 || total_len > 1522 {
            return Err(DevError::BadState);
        }
        // Packet length excluding CRC
        Ok(total_len - 4)
    }

    /// Address of the header of the next packet in the receive ring buffer.
    pub open spec fn header_addr(self) -> usize {
        (self.rx_vaddr() + self.rx_offset()) as usize
    }

    /// The value written to CAPR for the read offset `cur_rx` (16 bytes
    /// behind it, wrapping).
    pub fn capr_value(cur_rx: usize) -> (v: u16)
        ensures
            v == capr_for(cur_rx),
    {
        (cur_rx as u16).wrapping_sub(16)
    }

    /// Receive a packet from the receive ring buffer: the 4-byte header at
    /// the read offset gives status and length; a good packet is copied to
    /// a newly allocated DMA buffer. Bad packets are skipped. The read
    /// offset moves past the packet (wrapping inside the ring only after a
    /// good one) and CAPR follows it.
    #[verifier::rlimit(80)]
    pub fn do_receive<K: KernelFunc, I: DeviceIo>(&mut self, io: &I) -> (r: DevResult<RxPacket>)
        requires
            old(self).rx_vaddr() + old(self).rx_offset() + 0x1_0010 <= usize::MAX,
        ensures
            received::<K, I>(io, *old(self), *final(self), r),
    {
        proof {
            use_type_invariant(&*self);
        }
        // Check if the buffer is empty
        let mut m = self.mmio;
        let cr = m.read8(io, CR);
        self.mmio = m;
        assert(read8_gave(io, mmio_at(old(self).base(), old(self).accesses()), CR, cr));
        assert(self.accesses() == old(self).accesses() + 1);
        if (cr & CR_BUFE) != 0 {
            return Err(DevError::Again);
        }
        let rx_buf = self.rx_buf_vaddr;
        let cur_rx = self.cur_rx;
        // Packet status and length (first 4 bytes)
        let header = io.read_mem32(rx_buf + cur_rx);
        assert(mem_read_gave(io, (old(self).rx_vaddr() + old(self).rx_offset()) as usize, header));
        let total_len = (header >> 16) as usize;
        let packet_len = match Self::rx_header_outcome(header) {
            Ok(n) => n,
            Err(e) => {
                // Skip the packet
                self.cur_rx = Self::advance_rx_offset(cur_rx, total_len);
                let capr = Self::capr_value(self.cur_rx);
                m.write16(io, CAPR, capr);
                self.mmio = m;
                assert(wrote(io, mmio_at(old(self).base(), old(self).accesses() + 1), IoWrite::Half(CAPR, capr_for(self.cur_rx))));
                assert(mem_read_gave(io, old(self).header_addr(), header));
                assert(self.rx_offset() == next_rx_offset(old(self).rx_offset() as int, rx_header_len(header)));
                assert(self.accesses() == old(self).accesses() + 2);
                return Err(e);
            },
        };
        let pages = RealtekCommon::pages_for_size(packet_len);
        let ghost c = self.calls.count();
        let mut cn = self.calls;
        let (pkt_vaddr, pkt_paddr) = K::dma_alloc_coherent(pages, &cn);
        cn.advance();
        self.calls = cn;
        assert(pages_needed(packet_len as int) as usize == pages);
        assert(dma_gave::<K>(c, pages_needed(packet_len as int) as usize, pkt_vaddr, pkt_paddr));
        if pkt_vaddr == 0 {
            assert(mem_read_gave(io, old(self).header_addr(), header));
            assert(packet_len == rx_header_len(header) - 4);
            assert(alloc_failed::<K>(c, pages_needed(rx_header_len(header) - 4)));
            return Err(DevError::NoMemory);
        }
        // Copy the packet (after the 4-byte header)
        io.copy_mem(rx_buf + cur_rx + 4, pkt_vaddr, packet_len);
        // Move the read pointer, 4-byte aligned, wrapping inside the ring
        let mut next = Self::advance_rx_offset(cur_rx, total_len);
        if next >= RX_BUF_SIZE {
            next = next % RX_BUF_SIZE;
        }
        self.cur_rx = next;
        let capr = Self::capr_value(self.cur_rx);
        m.write16(io, CAPR, capr);
        self.mmio = m;
        assert(wrote(io, mmio_at(old(self).base(), old(self).accesses() + 1), IoWrite::Half(CAPR, capr_for(self.cur_rx))));
        assert(read8_gave(io, mmio_at(old(self).base(), old(self).accesses()), CR, cr));
        let ghost hdr = old(self).header_addr();
        assert(mem_read_gave(io, hdr, header));
        assert(rx_status_ok(header) && rx_len_valid(rx_header_len(header)) && packet_len == rx_header_len(header) - 4);
        assert(self.rx_offset() == rx_wrap(next_rx_offset(old(self).rx_offset() as int, rx_header_len(header))));
        assert(call_ensures(I::copy_mem, (io, (hdr + 4) as usize, pkt_vaddr, packet_len), ()));
        assert(self.accesses() == old(self).accesses() + 2);
        let p = RxPacket { vaddr: pkt_vaddr, len: packet_len };
        assert(dma_gave::<K>(c, pages, p.vaddr, pkt_paddr));
        assert(allocated::<K>(c, pages_needed(p.len as int), p.vaddr));
        assert(exists|h: u32| #[trigger] mem_read_gave(io, hdr, h)
            && rx_status_ok(h) && rx_len_valid(rx_header_len(h)) && p.len == rx_header_len(h) - 4
            && self.rx_offset() == rx_wrap(next_rx_offset(old(self).rx_offset() as int, rx_header_len(h)))
            && call_ensures(I::copy_mem, (io, (hdr + 4) as usize, p.vaddr, p.len), ())
            && wrote(io, mmio_at(old(self).base(), old(self).accesses() + 1), IoWrite::Half(CAPR, capr_for(self.rx_offset())))
            && self.accesses() == old(self).accesses() + 2);
        Ok(p)
    }

    /// Whether the receive ring buffer and the read offset leave room for
    /// a packet header and the largest packet without address overflow.
    pub fn rx_pointer_in_range(&self) -> (r: bool)
        ensures
            r == (self.rx_vaddr() + self.rx_offset() + 0x1_0010 <= usize::MAX),
    {
        self.rx_buf_vaddr <= usize::MAX - 0x1_0010 && self.cur_rx <= usize::MAX - 0x1_0010 - self.rx_buf_vaddr
    }

    /// Interrupt line of the device.
    pub fn irq_number(&self) -> (n: u8)
        ensures
            n == self.irq_line(),
    {
        self.irq
    }

    /// Device name.
    pub fn device_name(&self) -> (s: &'static str)
        ensures
            s@ == "rtl8139"@,
    {
        "rtl8139"
    }

    /// The MAC address.
    pub fn mac_address(&self) -> (mac: EthernetAddress)
        ensures
            mac.0 == self.mac_bytes(),
    {
        self.mac
    }

    /// Transmission is always attempted; a busy descriptor is reported by
    /// `transmit`.
    pub fn can_transmit(&self) -> (r: bool)
        ensures
            r,
    {
        true
    }

    /// Reception is always attempted; an empty ring is reported by `receive`.
    pub fn can_receive(&self) -> (r: bool)
        ensures
            r,
    {
        true
    }

    /// Receive queue size.
    pub fn rx_queue_size(&self) -> (n: usize)
        ensures
            n == 1,
    {
        1
    }

    /// Transmit queue size.
    pub fn tx_queue_size(&self) -> (n: usize)
        ensures
            n == NUM_TX_DESC,
    {
        NUM_TX_DESC
    }

    /// Give back a packet buffer of `len` bytes at `vaddr` (the next kernel
    /// call).
    pub fn recycle_rx_buffer<K: KernelFunc>(&mut self, vaddr: usize, len: usize) -> (r: DevResult)
        requires
            len + 4095 <= usize::MAX,
        ensures
            r is Ok,
            dma_freed::<K>(old(self).calls_made(), vaddr, pages_needed(len as int) as usize),
            final(self).calls_made() == old(self).calls_made() + 1,
            final(self).same_state(*old(self)),
            final(self).base() == old(self).base(),
            final(self).accesses() == old(self).accesses(),
            final(self).rx_vaddr() == old(self).rx_vaddr(),
            final(self).rx_offset() == old(self).rx_offset(),
    {
        proof {
            use_type_invariant(&*self);
        }
        let pages = RealtekCommon::pages_for_size(len);
        let mut cn = self.calls;
        K::dma_free_coherent(vaddr, pages, &cn);
        cn.advance();
        self.calls = cn;
        Ok(())
    }

    /// Transmit buffers are reused in place: nothing to do.
    pub fn recycle_tx_buffers(&mut self) -> (r: DevResult)
        ensures
            r is Ok,
            *final(self) == *old(self),
    {
        Ok(())
    }

    /// Transmit the frame `data` held in the packet buffer of `len` bytes
    /// at `vaddr` (see `do_transmit`), then give that buffer back (the next
    /// kernel call), whatever the outcome.
    pub fn transmit<K: KernelFunc, I: DeviceIo>(&mut self, io: &I, data: &[u8], vaddr: usize, len: usize) -> (r: DevResult)
        requires
            len + 4095 <= usize::MAX,
        ensures
            transmitted(io, *old(self), *final(self), data, r),
            dma_freed::<K>(old(self).calls_made(), vaddr, pages_needed(len as int) as usize),
            final(self).calls_made() == old(self).calls_made() + 1,
    {
        let result = self.do_transmit(io, data);
        // Free the buffer after the transmission attempt
        let _ = self.recycle_rx_buffer::<K>(vaddr, len);
        result
    }

    /// Receive a packet (see `do_receive`).
    pub fn receive<K: KernelFunc, I: DeviceIo>(&mut self, io: &I) -> (r: DevResult<RxPacket>)
        requires
            old(self).rx_vaddr() + old(self).rx_offset() + 0x1_0010 <= usize::MAX,
        ensures
            received::<K, I>(io, *old(self), *final(self), r),
    {
        self.do_receive::<K, I>(io)
    }

    /// Allocate a transmit buffer of `size` bytes (the next kernel call);
    /// returns its virtual address.
    pub fn alloc_tx_buffer<K: KernelFunc>(&mut self, size: usize) -> (r: DevResult<usize>)
        ensures
            size > TX_BUF_SIZE ==> r == Err::<usize, DevError>(DevError::InvalidParam)
                && final(self).calls_made() == old(self).calls_made(),
            size <= TX_BUF_SIZE ==> final(self).calls_made() == old(self).calls_made() + 1 && match r {
                Ok(v) => v != 0 && allocated::<K>(old(self).calls_made(), pages_needed(size as int), v),
                Err(e) => e == DevError::NoMemory && alloc_failed::<K>(old(self).calls_made(), pages_needed(size as int)),
            },
            final(self).same_state(*old(self)),
            final(self).base() == old(self).base(),
            final(self).accesses() == old(self).accesses(),
            final(self).rx_vaddr() == old(self).rx_vaddr(),
            final(self).rx_offset() == old(self).rx_offset(),
    {
        proof {
            use_type_invariant(&*self);
        }
        if size > TX_BUF_SIZE {
            return Err(DevError::InvalidParam);
        }
        let pages = RealtekCommon::pages_for_size(size);
        let ghost c = self.calls.count();
        let mut cn = self.calls;
        let (vaddr, paddr) = K::dma_alloc_coherent(pages, &cn);
        assert(dma_gave::<K>(c, pages, vaddr, paddr));
        cn.advance();
        self.calls = cn;
        if vaddr == 0 {
            return Err(DevError::NoMemory);
        }
        Ok(vaddr)
    }

    /// Disable the receiver and transmitter and free the receive and
    /// transmit buffers that were allocated; the driver then holds no
    /// buffer (a second shutdown frees nothing). The frees are kernel calls
    /// `c` (the receive ring buffer) and `c + 1 + i` (transmit buffer `i`),
    /// `c` the count of calls made before; a number whose buffer is not
    /// held goes unused.
    pub fn shutdown<K: KernelFunc, I: DeviceIo>(&mut self, io: &I)
        ensures
            shut_down::<K, I>(io, *old(self), *final(self)),
    {
        proof {
            use_type_invariant(&*self);
        }
        let ghost c = self.calls.count();
        let mut m = self.mmio;
        m.write8(io, CR, 0x00);
        self.mmio = m;
        let mut cn = self.calls;
        if self.rx_buf_vaddr != 0 {
            let rx_pages = RealtekCommon::pages_for_size(RX_BUF_SIZE);
            K::dma_free_coherent(self.rx_buf_vaddr, rx_pages, &cn);
            assert(dma_freed::<K>(c, old(self).rx_vaddr(), pages_needed(RX_BUF_SIZE as int) as usize));
        }
        cn.advance();
        self.calls = cn;
        self.rx_buf_vaddr = 0;
        self.rx_buf_paddr = 0;
        let tx_pages = RealtekCommon::pages_for_size(TX_BUF_SIZE);
        assert(pages_needed(TX_BUF_SIZE as int) as usize == tx_pages);
        let mut i: usize = 0;
        while i < NUM_TX_DESC
            invariant
                i <= NUM_TX_DESC,
                self.tx_buf_vaddr@.len() == NUM_TX_DESC,
                self.tx_buf_paddr@.len() == NUM_TX_DESC,
                forall|j: int| 0 <= j < i ==> #[trigger] self.tx_buf_vaddr@[j] == 0,
                forall|j: int| 0 <= j < i ==> #[trigger] self.tx_buf_paddr@[j] == 0,
                self.rx_buf_vaddr == 0 && self.rx_buf_paddr == 0,
                tx_pages == pages_needed(TX_BUF_SIZE as int),
                forall|j: int| i <= j < NUM_TX_DESC ==> #[trigger] self.tx_buf_vaddr@[j] == old(self).tx_vaddrs()[j],
                forall|j: int| 0 <= j < i && #[trigger] old(self).tx_vaddrs()[j] != 0
                    ==> dma_freed::<K>(c + 1 + j, old(self).tx_vaddrs()[j], tx_pages),
                old(self).rx_vaddr() != 0 ==> dma_freed::<K>(c, old(self).rx_vaddr(), pages_needed(RX_BUF_SIZE as int) as usize),
                c == old(self).calls_made(),
                self.calls == call_no(c + 1 + i),
                self.tx_cur == old(self).tx_cur,
                self.tx_cur < NUM_TX_DESC,
                self.cur_rx == old(self).cur_rx,
                self.mac == old(self).mac,
                self.mmio == mmio_at(old(self).base(), old(self).accesses() + 1),
                self.irq == old(self).irq,
            decreases NUM_TX_DESC - i,
        {
            let mut cn = self.calls;
            if self.tx_buf_vaddr[i] != 0 {
                K::dma_free_coherent(self.tx_buf_vaddr[i], tx_pages, &cn);
                assert(dma_freed::<K>(c + 1 + i, old(self).tx_vaddrs()[i as int], tx_pages));
            }
            cn.advance();
            self.calls = cn;
            let ghost vs = self.tx_buf_vaddr@;
            let ghost ps = self.tx_buf_paddr@;
            self.tx_buf_vaddr[i] = 0;
            self.tx_buf_paddr[i] = 0;
            assert(self.tx_buf_vaddr@ == vs.update(i as int, 0usize));
            assert(self.tx_buf_paddr@ == ps.update(i as int, 0usize));
            i = i + 1;
        }
        assert(self.tx_buf_vaddr@ =~= seq![0usize, 0, 0, 0]);
        assert(self.tx_buf_paddr@ =~= seq![0usize, 0, 0, 0]);
    }
}

/// After a good packet, the read offset moves past the packet's 4-byte
/// header and its data (CRC included), rounded up to a multiple of 4, and
/// wraps around the ring buffer: it is `cur_rx + total_len + 4 + 3` rounded
/// down to a multiple of 4, modulo the ring size. The packet is the header's
/// length less the CRC, the length being within 64..=1522. CAPR is then
/// written with the new offset less 16.
pub proof fn lemma_receive_advances_read_offset<K: KernelFunc, I: DeviceIo>(
    io: &I,
    d0: Rtl8139Driver,
    d1: Rtl8139Driver,
    r: DevResult<RxPacket>,
)
    requires
        received::<K, I>(io, d0, d1, r),
        r is Ok,
    ensures
        exists|h: u32| #[trigger] mem_read_gave(io, d0.header_addr(), h)
            && h & 1 == 1 && 64 <= (h >> 16u32) <= 1522
            && r->Ok_0.len == (h >> 16u32) - 4
            && d1.rx_offset() == ((d0.rx_offset() + (h >> 16u32) + 7) / 4 * 4) % 9744,
        // CAPR is written, next, with the new offset less 16 (modulo 2^16)
        wrote(io, mmio_at(d0.base(), d0.accesses() + 1), IoWrite::Half(CAPR,
            (if d1.rx_offset() >= 16 { d1.rx_offset() - 16 } else { d1.rx_offset() + 65520 }) as u16)),
{
    let h = choose|h: u32| #[trigger] mem_read_gave(io, d0.header_addr(), h)
        && rx_status_ok(h) && rx_len_valid(rx_header_len(h)) && r->Ok_0.len == rx_header_len(h) - 4
        && d1.rx_offset() == rx_wrap(next_rx_offset(d0.rx_offset() as int, rx_header_len(h)))
        && call_ensures(I::copy_mem, (io, (d0.header_addr() + 4) as usize, r->Ok_0.vaddr, r->Ok_0.len), ())
        && wrote(io, mmio_at(d0.base(), d0.accesses() + 1), IoWrite::Half(CAPR, capr_for(d1.rx_offset())))
        && d1.accesses() == d0.accesses() + 2;
    let x: int = d0.rx_offset() + (h >> 16u32) + 7;
    assert(x - x % 4 == x / 4 * 4) by {
        vstd::arithmetic::div_mod::lemma_fundamental_div_mod(x, 4);
    }
    let n: int = x / 4 * 4;
    assert(n >= 0);
    if n < 9744 {
        vstd::arithmetic::div_mod::lemma_small_mod(n as nat, 9744);
    }
    assert(d1.rx_offset() == n % 9744);
    let off = d1.rx_offset();
    assert(off < 9744);
    assert((off as u16) as int == off as int) by (bit_vector)
        requires off < 9744usize;
    assert(capr_for(off) == (if off >= 16 { off - 16 } else { off + 65520 }) as u16);
}

/// A receive header word with the receive-OK bit set and a length (CRC
/// included) within 64..=1522 gives that length less the 4-byte CRC; one
/// with the bit set and a length outside that range gives `BadState`; one
/// without the bit gives `Again`.
pub proof fn lemma_rx_header_lengths(header: u32, r: DevResult<usize>)
    requires
        call_ensures(Rtl8139Driver::rx_header_outcome, (header,), r),
    ensures
        header & 1 == 1 && 64 <= (header >> 16u32) <= 1522 ==> r == Ok::<usize, DevError>(((header >> 16u32) - 4) as usize),
        header & 1 == 1 && ((header >> 16u32) < 64 || (header >> 16u32) > 1522) ==> r == Err::<usize, DevError>(DevError::BadState),
        header & 1 != 1 ==> r == Err::<usize, DevError>(DevError::Again),
{
}

} // verus!
