//! Utilities shared by the RealTek drivers: register addressing, DMA
//! buffers, MAC address read-out, reset and polling, frame sizing.
use vstd::prelude::*;

use super::kernel_func::{waited, waits, KernelFunc};
use crate::calls::{call_no, CallNo};
use crate::types::{DevError, DevResult, EthernetAddress};

verus! {

/// Size of a DMA page.
pub const PAGE_SIZE: usize = 4096;
/// Minimum Ethernet frame size (without CRC).
pub const MIN_ETH_FRAME_SIZE: usize = 60;

/// A frame size padded to the minimum Ethernet frame size.
pub open spec fn padded_size(size: int) -> int {
    if size < MIN_ETH_FRAME_SIZE { MIN_ETH_FRAME_SIZE as int } else { size }
}

/// Number of pages that hold `size` bytes.
pub open spec fn pages_needed(size: int) -> int {
    (size + 4095) / 4096
}

/// The register window at `base`, before its `k`-th access (accesses are
/// counted from 0 in the order in which the driver makes them).
pub closed spec fn mmio_at(base: usize, k: int) -> MmioOps {
    MmioOps { base_addr: base, accesses: Ghost(k) }
}

/// The window before its `k`-th access has the base it was made with.
pub broadcast proof fn lemma_mmio_at_base(base: usize, k: int)
    ensures
        #[trigger] mmio_at(base, k).base() == base,
{
}

/// The window before its `k`-th access has the count it was made with.
pub broadcast proof fn lemma_mmio_at_step(base: usize, k: int)
    ensures
        #[trigger] mmio_at(base, k).step() == k,
{
}

/// The window `mmio` is the window at its base before its access number
/// `mmio.step()`.
pub broadcast proof fn lemma_mmio_is_at(mmio: MmioOps)
    ensures
        #[trigger] mmio_at(mmio.base(), mmio.step()) == mmio,
{
}

pub broadcast group group_mmio {
    lemma_mmio_at_base,
    lemma_mmio_at_step,
    lemma_mmio_is_at,
}

/// `io` performed the register write `w` on the window `mmio` (the window
/// value carries the number of the access).
pub open spec fn wrote<I: DeviceIo>(io: &I, mmio: MmioOps, w: IoWrite) -> bool {
    match w {
        IoWrite::Byte(off, v) => call_ensures(I::write8, (io, &mmio, off, v), ()),
        IoWrite::Half(off, v) => call_ensures(I::write16, (io, &mmio, off, v), ()),
        IoWrite::Word(off, v) => call_ensures(I::write32, (io, &mmio, off, v), ()),
    }
}

/// A read of the 8-bit register `off` of `mmio` through `io` returned `v`.
pub open spec fn read8_gave<I: DeviceIo>(io: &I, mmio: MmioOps, off: u16, v: u8) -> bool {
    call_ensures(I::read8, (io, &mmio, off), v)
}

/// A read of the 16-bit register `off` of `mmio` through `io` returned `v`.
pub open spec fn read16_gave<I: DeviceIo>(io: &I, mmio: MmioOps, off: u16, v: u16) -> bool {
    call_ensures(I::read16, (io, &mmio, off), v)
}

/// A read of the 32-bit register `off` of `mmio` through `io` returned `v`.
pub open spec fn read32_gave<I: DeviceIo>(io: &I, mmio: MmioOps, off: u16, v: u32) -> bool {
    call_ensures(I::read32, (io, &mmio, off), v)
}

/// A read of the 32-bit word of DMA memory at `addr` through `io` returned `v`.
pub open spec fn mem_read_gave<I: DeviceIo>(io: &I, addr: usize, v: u32) -> bool {
    call_ensures(I::read_mem32, (io, addr), v)
}

/// `io` wrote `v` to the 32-bit word of DMA memory at `addr`.
pub open spec fn mem_wrote<I: DeviceIo>(io: &I, addr: usize, v: u32) -> bool {
    call_ensures(I::write_mem32, (io, addr, v), ())
}

/// Accesses `k`, `k + 1`, ... of the window at `base` were the writes `ws`,
/// in that order.
pub open spec fn wrote_in_order<I: DeviceIo>(io: &I, base: usize, k: int, ws: Seq<IoWrite>) -> bool {
    forall|j: int| 0 <= j < ws.len() ==> wrote(io, mmio_at(base, (k + j) as int), #[trigger] ws[j])
}

/// Access `k + j` of the window at `base` was a read of the 8-bit register
/// `off` that found a bit of `mask` set.
pub open spec fn poll8_set<I: DeviceIo>(io: &I, base: usize, k: int, j: int, off: u16, mask: u8) -> bool {
    exists|v: u8| #[trigger] read8_gave(io, mmio_at(base, k + j), off, v) && v & mask != 0
}

/// Accesses `k` to `k + n - 1` of the window at `base` were reads of the
/// 8-bit register `off` that found a bit of `mask` set.
pub open spec fn polls8_set<I: DeviceIo>(io: &I, base: usize, k: int, n: int, off: u16, mask: u8) -> bool {
    forall|j: int| 0 <= j < n ==> #[trigger] poll8_set(io, base, k, j, off, mask)
}

/// Access `k` of the window at `base` was a read of the 8-bit register
/// `off` that found the bits of `mask` clear.
pub open spec fn read8_clear<I: DeviceIo>(io: &I, base: usize, k: int, off: u16, mask: u8) -> bool {
    exists|v: u8| #[trigger] read8_gave(io, mmio_at(base, k), off, v) && v & mask == 0
}

/// Access `k + j` of the window at `base` was a read of the 32-bit
/// register `reg` whose bits of `mask` were not as `expected` (any set:
/// `true`; all clear: `false`).
pub open spec fn poll32_not<I: DeviceIo>(io: &I, base: usize, k: int, j: int, reg: u16, mask: u32, expected: bool) -> bool {
    exists|v: u32| #[trigger] read32_gave(io, mmio_at(base, k + j), reg, v) && ((v & mask) != 0) != expected
}

/// Accesses `k` to `k + n - 1` of the window at `base` were reads of the
/// 32-bit register `reg` whose bits of `mask` were not as `expected`.
pub open spec fn polls32_not<I: DeviceIo>(io: &I, base: usize, k: int, n: int, reg: u16, mask: u32, expected: bool) -> bool {
    forall|j: int| 0 <= j < n ==> #[trigger] poll32_not(io, base, k, j, reg, mask, expected)
}

/// Call number `c` to `K` was an allocation of `pages` DMA pages that
/// returned `(vaddr, paddr)`.
pub open spec fn dma_gave<K: KernelFunc>(c: int, pages: usize, vaddr: usize, paddr: usize) -> bool {
    call_ensures(K::dma_alloc_coherent, (pages, &call_no(c)), (vaddr, paddr))
}

/// Call number `c` to `K` was an allocation of `pages` DMA pages that
/// returned the virtual address `vaddr` (and some physical address).
pub open spec fn allocated<K: KernelFunc>(c: int, pages: int, vaddr: usize) -> bool {
    exists|n: usize, v: usize, p: usize| #[trigger] dma_gave::<K>(c, n, v, p) && n == pages && v == vaddr
}

/// Call number `c` to `K` was an allocation of `pages` DMA pages that
/// failed (returned a null virtual address).
pub open spec fn alloc_failed<K: KernelFunc>(c: int, pages: int) -> bool {
    allocated::<K>(c, pages, 0)
}

/// Call number `c` to `K` freed the `pages` DMA pages at `vaddr`.
pub open spec fn dma_freed<K: KernelFunc>(c: int, vaddr: usize, pages: usize) -> bool {
    call_ensures(K::dma_free_coherent, (vaddr, pages, &call_no(c)), ())
}

/// The buffer a slot holds, if it holds one with a non-null address, was
/// given back to `K` by call number `c`.
pub open spec fn slot_freed<K: KernelFunc>(c: int, slot: Option<DmaBuffer>) -> bool {
    match slot {
        Some(b) => b.virt() != 0 ==> dma_freed::<K>(c, b.virt(), b.page_count()),
        None => true,
    }
}

/// MMIO register access helper: the base address of a register window,
/// and (for the proofs) the number of accesses made through it so far.
#[derive(Clone, Copy)]
pub struct MmioOps {
    base_addr: usize,
    accesses: Ghost<int>,
}

impl MmioOps {
    /// The base address of the register window.
    pub closed spec fn base(&self) -> usize {
        self.base_addr
    }

    /// The number of accesses made through the window so far.
    pub closed spec fn step(&self) -> int {
        self.accesses@
    }

    /// Create a new MMIO operations helper.
    pub fn new(base_addr: usize) -> (m: Self)
        ensures
            m == mmio_at(base_addr, 0),
    {
        MmioOps { base_addr, accesses: Ghost(0) }
    }

    /// Get base address.
    pub fn base_addr(&self) -> (a: usize)
        ensures
            a == self.base(),
    {
        self.base_addr
    }

    /// Address of the register at `offset`.
    pub fn reg_addr(&self, offset: u16) -> (a: usize)
        requires
            self.base() + offset <= usize::MAX,
        ensures
            a == self.base() + offset,
    {
        self.base_addr + offset as usize
    }

    /// Read the 8-bit register at `offset`.
    pub fn read8<I: DeviceIo>(&mut self, io: &I, offset: u16) -> (v: u8)
        ensures
            read8_gave(io, mmio_at(old(self).base(), old(self).step()), offset, v),
            *final(self) == mmio_at(old(self).base(), old(self).step() + 1),
    {
        let v = io.read8(&*self, offset);
        self.accesses = Ghost(self.accesses@ + 1);
        v
    }

    /// Read the 16-bit register at `offset`.
    pub fn read16<I: DeviceIo>(&mut self, io: &I, offset: u16) -> (v: u16)
        ensures
            read16_gave(io, mmio_at(old(self).base(), old(self).step()), offset, v),
            *final(self) == mmio_at(old(self).base(), old(self).step() + 1),
    {
        let v = io.read16(&*self, offset);
        self.accesses = Ghost(self.accesses@ + 1);
        v
    }

    /// Read the 32-bit register at `offset`.
    pub fn read32<I: DeviceIo>(&mut self, io: &I, offset: u16) -> (v: u32)
        ensures
            read32_gave(io, mmio_at(old(self).base(), old(self).step()), offset, v),
            *final(self) == mmio_at(old(self).base(), old(self).step() + 1),
    {
        let v = io.read32(&*self, offset);
        self.accesses = Ghost(self.accesses@ + 1);
        v
    }

    /// Perform the register write `w`.
    pub fn write<I: DeviceIo>(&mut self, io: &I, w: IoWrite)
        ensures
            wrote(io, mmio_at(old(self).base(), old(self).step()), w),
            *final(self) == mmio_at(old(self).base(), old(self).step() + 1),
    {
        match w {
            IoWrite::Byte(off, v) => io.write8(&*self, off, v),
            IoWrite::Half(off, v) => io.write16(&*self, off, v),
            IoWrite::Word(off, v) => io.write32(&*self, off, v),
        }
        self.accesses = Ghost(self.accesses@ + 1);
    }

    /// Write the 8-bit register at `offset`.
    pub fn write8<I: DeviceIo>(&mut self, io: &I, offset: u16, value: u8)
        ensures
            wrote(io, mmio_at(old(self).base(), old(self).step()), IoWrite::Byte(offset, value)),
            *final(self) == mmio_at(old(self).base(), old(self).step() + 1),
    {
        self.write(io, IoWrite::Byte(offset, value))
    }

    /// Write the 16-bit register at `offset`.
    pub fn write16<I: DeviceIo>(&mut self, io: &I, offset: u16, value: u16)
        ensures
            wrote(io, mmio_at(old(self).base(), old(self).step()), IoWrite::Half(offset, value)),
            *final(self) == mmio_at(old(self).base(), old(self).step() + 1),
    {
        self.write(io, IoWrite::Half(offset, value))
    }

    /// Write the 32-bit register at `offset`.
    pub fn write32<I: DeviceIo>(&mut self, io: &I, offset: u16, value: u32)
        ensures
            wrote(io, mmio_at(old(self).base(), old(self).step()), IoWrite::Word(offset, value)),
            *final(self) == mmio_at(old(self).base(), old(self).step() + 1),
    {
        self.write(io, IoWrite::Word(offset, value))
    }
}

/// Access to the registers of a device window and to DMA memory.
///
/// The platform implements it with volatile accesses. Nothing is assumed of
/// what a read returns: a device may change its registers and DMA memory
/// at any time.
pub trait DeviceIo {
    /// Read the 8-bit register at `offset` of the window of `mmio`.
    fn read8(&self, mmio: &MmioOps, offset: u16) -> u8;
    /// Read the 16-bit register at `offset` of the window of `mmio`.
    fn read16(&self, mmio: &MmioOps, offset: u16) -> u16;
    /// Read the 32-bit register at `offset` of the window of `mmio`.
    fn read32(&self, mmio: &MmioOps, offset: u16) -> u32;
    /// Write the 8-bit register at `offset` of the window of `mmio`.
    fn write8(&self, mmio: &MmioOps, offset: u16, value: u8);
    /// Write the 16-bit register at `offset` of the window of `mmio`.
    fn write16(&self, mmio: &MmioOps, offset: u16, value: u16);
    /// Write the 32-bit register at `offset` of the window of `mmio`.
    fn write32(&self, mmio: &MmioOps, offset: u16, value: u32);
    /// Read the 32-bit word of DMA memory at virtual address `addr`.
    fn read_mem32(&self, addr: usize) -> u32;
    /// Write the 32-bit word of DMA memory at virtual address `addr`.
    fn write_mem32(&self, addr: usize, value: u32);
    /// Copy `data` to DMA memory at virtual address `dst`.
    fn copy_to_mem(&self, dst: usize, data: &[u8]);
    /// Copy `len` bytes of memory from virtual address `src` to `dst`.
    fn copy_mem(&self, src: usize, dst: usize, len: usize);
}

/// A register write: the register offset and the value, by access width.
#[derive(Debug, Clone, Copy, PartialEq, Eq, Structural)]
pub enum IoWrite {
    Byte(u16, u8),
    Half(u16, u16),
    Word(u16, u32),
}

/// Perform `writes` on the registers of `mmio`, in order, and nothing else.
pub fn apply_writes<I: DeviceIo>(io: &I, mmio: &mut MmioOps, writes: &Vec<IoWrite>)
    ensures
        wrote_in_order(io, old(mmio).base(), old(mmio).step(), writes@),
        *final(mmio) == mmio_at(old(mmio).base(), old(mmio).step() + writes@.len()),
{
    broadcast use group_mmio;
    let ghost b = mmio.base();
    let ghost s = mmio.step();
    let mut i: usize = 0;
    while i < writes.len()
        invariant
            i <= writes@.len(),
            *mmio == mmio_at(b, s + i),
            forall|j: int| 0 <= j < i ==> wrote(io, mmio_at(b, (s + j) as int), #[trigger] writes@[j]),
        decreases writes@.len() - i,
    {
        mmio.write(io, writes[i]);
        i = i + 1;
    }
}

/// DMA buffer management: a run of DMA-coherent pages.
pub struct DmaBuffer {
    vaddr: usize,
    paddr: usize,
    pages: usize,
}

impl DmaBuffer {
    #[verifier::type_invariant]
    spec fn size_fits(self) -> bool {
        self.pages * PAGE_SIZE <= usize::MAX
    }

    /// Virtual address of the buffer.
    pub closed spec fn virt(self) -> usize {
        self.vaddr
    }

    /// Physical address of the buffer.
    pub closed spec fn phys(self) -> usize {
        self.paddr
    }

    /// Number of pages of the buffer.
    pub closed spec fn page_count(self) -> usize {
        self.pages
    }

    /// A buffer from the result `(vaddr, paddr)` of allocating `pages`
    /// pages: an allocation that returned a null virtual address failed.
    pub fn from_allocation(pages: usize, vaddr: usize, paddr: usize) -> (r: DevResult<Self>)
        requires
            pages * PAGE_SIZE <= usize::MAX,
        ensures
            vaddr == 0 ==> r == Err::<Self, DevError>(DevError::NoMemory),
            vaddr != 0 ==> (r matches Ok(b) && b.virt() == vaddr && b.phys() == paddr
                && b.page_count() == pages),
    {
        if vaddr == 0 {
            return Err(DevError::NoMemory);
        }
        Ok(DmaBuffer { vaddr, paddr, pages })
    }

    /// Allocate a new DMA buffer of at least `size` bytes, by the call
    /// numbered `calls`.
    pub fn allocate<K: KernelFunc>(size: usize, calls: &mut CallNo) -> (r: DevResult<Self>)
        requires
            size + 4095 <= usize::MAX,
        ensures
            *final(calls) == call_no(old(calls).count() + 1),
            r matches Ok(b) ==> b.virt() != 0 && b.page_count() == pages_needed(size as int)
                && dma_gave::<K>(old(calls).count(), b.page_count(), b.virt(), b.phys()),
            r matches Err(e) ==> e == DevError::NoMemory && alloc_failed::<K>(old(calls).count(), pages_needed(size as int)),
    {
        let pages = RealtekCommon::pages_for_size(size);
        let (vaddr, paddr) = K::dma_alloc_coherent(pages, &*calls);
        assert(dma_gave::<K>(old(calls).count(), pages, vaddr, paddr));
        assert(pages_needed(size as int) as usize == pages);
        calls.advance();
        Self::from_allocation(pages, vaddr, paddr)
    }

    /// Give the pages back to the platform by the call numbered `calls` (a
    /// buffer with a null address holds nothing; the number is used
    /// anyway).
    pub fn free<K: KernelFunc>(self, calls: &mut CallNo)
        ensures
            *final(calls) == call_no(old(calls).count() + 1),
            self.virt() != 0 ==> dma_freed::<K>(old(calls).count(), self.virt(), self.page_count()),
    {
        if self.vaddr != 0 {
            K::dma_free_coherent(self.vaddr, self.pages, &*calls);
        }
        calls.advance();
    }

    /// Get virtual address.
    pub fn vaddr(&self) -> (a: usize)
        ensures
            a == self.virt(),
    {
        self.vaddr
    }

    /// Get physical address.
    pub fn paddr(&self) -> (a: usize)
        ensures
            a == self.phys(),
    {
        self.paddr
    }

    /// Get number of pages.
    pub fn pages(&self) -> (n: usize)
        ensures
            n == self.page_count(),
    {
        self.pages
    }

    /// Get size in bytes.
    pub fn size(&self) -> (n: usize)
        ensures
            n == self.page_count() * PAGE_SIZE,
    {
        proof {
            use_type_invariant(self);
        }
        self.pages * PAGE_SIZE
    }
}

/// A slot that holds a buffer allocated for `size` bytes.
pub open spec fn slot_allocated(slot: Option<DmaBuffer>, size: usize) -> bool {
    slot matches Some(b) && b.virt() != 0 && b.page_count() == pages_needed(size as int)
}

/// A slot that holds the buffer that call number `c` to `K` allocated.
pub open spec fn slot_from<K: KernelFunc>(c: int, slot: Option<DmaBuffer>) -> bool {
    slot matches Some(b) && dma_gave::<K>(c, b.page_count(), b.virt(), b.phys())
}

/// The slots before `k` hold buffers allocated for `size` bytes, the slots
/// from `k` on are those of `before`.
pub open spec fn allocated_up_to(slots: Seq<Option<DmaBuffer>>, before: Seq<Option<DmaBuffer>>, k: int, size: usize) -> bool {
    &&& 0 <= k < slots.len()
    &&& slots.len() == before.len()
    &&& forall|i: int| 0 <= i < k ==> slot_allocated(#[trigger] slots[i], size)
    &&& forall|i: int| k <= i < slots.len() ==> #[trigger] slots[i] == before[i]
}

/// DMA buffer array for descriptor rings: `N` slots, each empty or holding
/// a buffer.
pub struct DmaBufferArray<const N: usize> {
    buffers: Vec<Option<DmaBuffer>>,
}

impl<const N: usize> DmaBufferArray<N> {
    #[verifier::type_invariant]
    spec fn has_n_slots(self) -> bool {
        self.buffers@.len() == N
    }

    /// The slots of the array.
    pub closed spec fn slots(self) -> Seq<Option<DmaBuffer>> {
        self.buffers@
    }

    /// Create a new array with all slots empty.
    pub fn new() -> (a: Self)
        ensures
            a.slots() == Seq::new(N as nat, |i: int| None::<DmaBuffer>),
    {
        let mut buffers: Vec<Option<DmaBuffer>> = Vec::new();
        let mut i: usize = 0;
        while i < N
            invariant
                i <= N,
                buffers@ == Seq::new(i as nat, |j: int| None::<DmaBuffer>),
            decreases N - i,
        {
            buffers.push(None);
            i = i + 1;
            assert(buffers@ =~= Seq::new(i as nat, |j: int| None::<DmaBuffer>));
        }
        DmaBufferArray { buffers }
    }

    /// Allocate a buffer of `buf_size` bytes in every slot, in order; the
    /// first failed allocation stops with `NoMemory`, leaving the slots
    /// from the failed one on as they were. A buffer that a slot held is
    /// freed once its replacement is allocated. Slot `i`'s allocation is
    /// call number `c + 2i` (`c` the number handed in), the free of what it
    /// held `c + 2i + 1`.
    pub fn alloc_all<K: KernelFunc>(&mut self, buf_size: usize, calls: &mut CallNo) -> (r: DevResult)
        requires
            buf_size + 4095 <= usize::MAX,
        ensures
            r is Ok ==> forall|i: int| 0 <= i < N ==> slot_allocated(#[trigger] final(self).slots()[i], buf_size)
                && slot_from::<K>(old(calls).count() + 2 * i, final(self).slots()[i])
                && slot_freed::<K>(old(calls).count() + 2 * i + 1, old(self).slots()[i]),
            r is Ok ==> *final(calls) == call_no(old(calls).count() + 2 * N),
            old(self).slots().len() == N && final(self).slots().len() == N,
            r matches Err(e) ==> e == DevError::NoMemory && exists|k: int|
                #[trigger] allocated_up_to(final(self).slots(), old(self).slots(), k, buf_size)
                && alloc_failed::<K>(old(calls).count() + 2 * k, pages_needed(buf_size as int))
                && *final(calls) == call_no(old(calls).count() + 2 * k + 1),
    {
        proof {
            use_type_invariant(&*self);
        }
        let ghost c0 = calls.count();
        let mut i: usize = 0;
        while i < N
            invariant
                i <= N,
                c0 == old(calls).count(),
                *calls == call_no(c0 + 2 * i),
                self.slots().len() == N,
                old(self).slots().len() == N,
                forall|j: int| 0 <= j < i ==> slot_allocated(#[trigger] self.slots()[j], buf_size)
                    && slot_from::<K>(c0 + 2 * j, self.slots()[j])
                    && slot_freed::<K>(c0 + 2 * j + 1, old(self).slots()[j]),
                forall|j: int| i <= j < N ==> #[trigger] self.slots()[j] == old(self).slots()[j],
                buf_size + 4095 <= usize::MAX,
            decreases N - i,
        {
            match DmaBuffer::allocate::<K>(buf_size, calls) {
                Ok(b) => {
                    let previous = self.replace_slot(i, Some(b));
                    match previous {
                        Some(p) => p.free::<K>(calls),
                        None => calls.advance(),
                    }
                },
                Err(e) => {
                    assert(allocated_up_to(self.slots(), old(self).slots(), i as int, buf_size));
                    return Err(e);
                },
            }
            i = i + 1;
        }
        Ok(())
    }

    /// Free the buffers of all slots, from the last slot to the first: slot
    /// `i`'s free is call number `c + N - 1 - i` (`c` the number handed in).
    pub fn free_all<K: KernelFunc>(self, calls: &mut CallNo)
        ensures
            forall|i: int| 0 <= i < N ==> slot_freed::<K>(old(calls).count() + N - 1 - i, #[trigger] self.slots()[i]),
            *final(calls) == call_no(old(calls).count() + N),
    {
        proof {
            use_type_invariant(&self);
        }
        let ghost c0 = calls.count();
        let ghost all = self.buffers@;
        let mut buffers = self.buffers;
        let mut n: usize = buffers.len();
        while n > 0
            invariant
                buffers@.len() == n,
                n <= all.len(),
                all.len() == N,
                c0 == old(calls).count(),
                *calls == call_no(c0 + N - n),
                buffers@ == all.subrange(0, n as int),
                forall|i: int| n <= i < all.len() ==> slot_freed::<K>(c0 + N - 1 - i, #[trigger] all[i]),
            decreases n,
        {
            if let Some(b) = buffers.pop() {
                assert(b == all[n - 1]);
                match b {
                    Some(buf) => buf.free::<K>(calls),
                    None => calls.advance(),
                }
            } else {
                calls.advance();
            }
            n = n - 1;
            assert(buffers@ =~= all.subrange(0, n as int));
        }
    }

    /// Put `b` in slot `index` and return what the slot held.
    fn replace_slot(&mut self, index: usize, b: Option<DmaBuffer>) -> (prev: Option<DmaBuffer>)
        requires
            index < N,
        ensures
            final(self).slots() == old(self).slots().update(index as int, b),
            prev == old(self).slots()[index as int],
    {
        proof {
            use_type_invariant(&*self);
        }
        let mut tmp = b;
        core::mem::swap(&mut tmp, &mut self.buffers[index]);
        tmp
    }

    /// Get buffer at index.
    pub fn get(&self, index: usize) -> (r: Option<&DmaBuffer>)
        ensures
            index < N ==> r == match self.slots()[index as int] {
                Some(b) => Some(&b),
                None => None::<&DmaBuffer>,
            },
            index >= N ==> r is None,
    {
        proof {
            use_type_invariant(self);
        }
        if index < self.buffers.len() {
            match &self.buffers[index] {
                Some(b) => Some(b),
                None => None,
            }
        } else {
            None
        }
    }

    /// Get virtual address at index (0 for an empty or missing slot).
    pub fn vaddr(&self, index: usize) -> (a: usize)
        ensures
            a == if index < N && self.slots()[index as int] is Some {
                self.slots()[index as int]->Some_0.virt()
            } else {
                0
            },
    {
        match self.get(index) {
            Some(b) => b.vaddr(),
            None => 0,
        }
    }

    /// Get physical address at index (0 for an empty or missing slot).
    pub fn paddr(&self, index: usize) -> (a: usize)
        ensures
            a == if index < N && self.slots()[index as int] is Some {
                self.slots()[index as int]->Some_0.phys()
            } else {
                0
            },
    {
        match self.get(index) {
            Some(b) => b.paddr(),
            None => 0,
        }
    }
}

impl<const N: usize> Default for DmaBufferArray<N> {
    /// An array with all slots empty.
    fn default() -> (a: Self)
        ensures
            a.slots() == Seq::new(N as nat, |i: int| None::<DmaBuffer>),
    {
        Self::new()
    }
}

/// Common utilities for RealTek drivers.
pub struct RealtekCommon;

impl RealtekCommon {
    /// Read the MAC address from the six byte registers starting at
    /// `mac_offset`: six reads, in order, and nothing else.
    pub fn read_mac_address<I: DeviceIo>(io: &I, mmio: &mut MmioOps, mac_offset: u16) -> (mac: EthernetAddress)
        requires
            mac_offset + 5 <= u16::MAX,
        ensures
            forall|i: int| 0 <= i < 6 ==> read8_gave(io, mmio_at(old(mmio).base(), (old(mmio).step() + i) as int),
                (mac_offset + i) as u16, #[trigger] mac.0[i]),
            *final(mmio) == mmio_at(old(mmio).base(), old(mmio).step() + 6),
    {
        broadcast use group_mmio;
        let ghost b = mmio.base();
        let ghost s = mmio.step();
        let mut mac = [0u8; 6];
        let mut i: usize = 0;
        while i < 6
            invariant
                i <= 6,
                mac_offset + 5 <= u16::MAX,
                *mmio == mmio_at(b, s + i),
                forall|j: int| 0 <= j < i ==> read8_gave(io, mmio_at(b, (s + j) as int), (mac_offset + j) as u16, #[trigger] mac[j]),
            decreases 6 - i,
        {
            let v = mmio.read8(io, mac_offset + i as u16);
            mac[i] = v;
            i = i + 1;
        }
        EthernetAddress(mac)
    }

    /// Issue a software reset by setting `reset_bit` in the command
    /// register (read, then written back with the bit) and wait,
    /// `timeout_ms * 100` polls 10us apart at most, for the device to clear
    /// it. `BadState` after that many polls that all found the bit set.
    pub fn software_reset<K: KernelFunc, I: DeviceIo>(io: &I, mmio: &mut MmioOps, calls: &mut CallNo, cmd_reg: u16, reset_bit: u8, timeout_ms: u32) -> (r: DevResult)
        requires
            timeout_ms * 100 <= u32::MAX,
        ensures
            ({
                let b = old(mmio).base();
                let s = old(mmio).step();
                &&& exists|c: u8| #[trigger] read8_gave(io, mmio_at(b, s), cmd_reg, c)
                    && wrote(io, mmio_at(b, s + 1), IoWrite::Byte(cmd_reg, c | reset_bit))
                // polls 10us apart: a wait (numbered from `calls` on) after each
                // poll that found the bit set
                &&& r is Ok ==> exists|n: int| 0 <= n < timeout_ms * 100 && #[trigger] polls8_set(io, b, s + 2, n, cmd_reg, reset_bit)
                    && read8_clear(io, b, s + 2 + n, cmd_reg, reset_bit)
                    && *final(mmio) == mmio_at(b, s + 3 + n)
                    && waits::<K>(old(calls).count(), n, 10) && *final(calls) == call_no(old(calls).count() + n)
                &&& r matches Err(e) ==> e == DevError::BadState
                    && polls8_set(io, b, s + 2, (timeout_ms * 100) as int, cmd_reg, reset_bit)
                    && *final(mmio) == mmio_at(b, s + 2 + timeout_ms * 100)
                    && waits::<K>(old(calls).count(), (timeout_ms * 100) as int, 10)
                    && *final(calls) == call_no(old(calls).count() + timeout_ms * 100)
            }),
    {
        broadcast use group_mmio;
        let ghost b = mmio.base();
        let ghost s = mmio.step();
        let ghost c0 = calls.count();
        // Issue reset command
        let cmd = mmio.read8(io, cmd_reg);
        mmio.write8(io, cmd_reg, cmd | reset_bit);
        // Wait for reset to complete, 10us per poll
        let iterations = timeout_ms * 100;
        let mut n: u32 = 0;
        while n < iterations
            invariant
                n <= iterations,
                iterations == timeout_ms * 100,
                c0 == old(calls).count(),
                *calls == call_no(c0 + n),
                waits::<K>(c0, n as int, 10),
                b == old(mmio).base() && s == old(mmio).step(),
                *mmio == mmio_at(b, s + 2 + n),
                read8_gave(io, mmio_at(b, s), cmd_reg, cmd),
                wrote(io, mmio_at(b, s + 1), IoWrite::Byte(cmd_reg, cmd | reset_bit)),
                polls8_set(io, b, s + 2, n as int, cmd_reg, reset_bit),
            decreases iterations - n,
        {
            let v = mmio.read8(io, cmd_reg);
            if (v & reset_bit) == 0 {
                assert(read8_clear(io, b, s + 2 + n, cmd_reg, reset_bit));
                assert(*mmio == mmio_at(b, s + 3 + n));
                assert(polls8_set(io, b, s + 2, n as int, cmd_reg, reset_bit));
                return Ok(());
            }
            assert(read8_gave(io, mmio_at(b, s + 2 + n), cmd_reg, v));
            assert(poll8_set(io, b, s + 2, n as int, cmd_reg, reset_bit));
            K::busy_wait(core::time::Duration::from_micros(10), &*calls);
            assert(waited::<K>(c0, n as int, 10));
            calls.advance();
            n = n + 1;
        }
        Err(DevError::BadState)
    }

    /// Wait, `timeout_us / 10` polls 10us apart at most, for the bits of
    /// `mask` in the 32-bit register `reg` to be (any set) or (all clear).
    /// `BadState` after that many polls none of which showed it.
    pub fn wait_for_bit<K: KernelFunc, I: DeviceIo>(io: &I, mmio: &mut MmioOps, calls: &mut CallNo, reg: u16, mask: u32, expected: bool, timeout_us: u32) -> (r: DevResult)
        ensures
            ({
                let b = old(mmio).base();
                let s = old(mmio).step();
                // a 10us wait (numbered from `calls` on) after each poll that
                // did not show the awaited state
                &&& r is Ok ==> exists|n: int| 0 <= n < timeout_us / 10 && #[trigger] polls32_not(io, b, s, n, reg, mask, expected)
                    && (exists|v: u32| #[trigger] read32_gave(io, mmio_at(b, s + n), reg, v) && ((v & mask) != 0) == expected)
                    && *final(mmio) == mmio_at(b, s + n + 1)
                    && waits::<K>(old(calls).count(), n, 10) && *final(calls) == call_no(old(calls).count() + n)
                &&& r matches Err(e) ==> e == DevError::BadState
                    && polls32_not(io, b, s, (timeout_us / 10) as int, reg, mask, expected)
                    && *final(mmio) == mmio_at(b, s + timeout_us / 10)
                    && waits::<K>(old(calls).count(), (timeout_us / 10) as int, 10)
                    && *final(calls) == call_no(old(calls).count() + timeout_us / 10)
            }),
    {
        broadcast use group_mmio;
        let ghost b = mmio.base();
        let ghost s = mmio.step();
        let ghost c0 = calls.count();
        let iterations = timeout_us / 10;
        let mut n: u32 = 0;
        while n < iterations
            invariant
                n <= iterations,
                iterations == timeout_us / 10,
                b == old(mmio).base() && s == old(mmio).step(),
                *mmio == mmio_at(b, s + n),
                polls32_not(io, b, s, n as int, reg, mask, expected),
                c0 == old(calls).count(),
                *calls == call_no(c0 + n),
                waits::<K>(c0, n as int, 10),
            decreases iterations - n,
        {
            let value = mmio.read32(io, reg);
            let is_set = (value & mask) != 0;
            if is_set == expected {
                assert(read32_gave(io, mmio_at(b, s + n), reg, value));
                assert(*mmio == mmio_at(b, s + n + 1));
                assert(polls32_not(io, b, s, n as int, reg, mask, expected));
                return Ok(());
            }
            assert(read32_gave(io, mmio_at(b, s + n), reg, value));
            assert(poll32_not(io, b, s, n as int, reg, mask, expected));
            K::busy_wait(core::time::Duration::from_micros(10), &*calls);
            assert(waited::<K>(c0, n as int, 10));
            calls.advance();
            n = n + 1;
        }
        Err(DevError::BadState)
    }

    /// Calculate pages needed for a given size.
    pub fn pages_for_size(size: usize) -> (n: usize)
        requires
            size + 4095 <= usize::MAX,
        ensures
            n == pages_needed(size as int),
            n * PAGE_SIZE <= usize::MAX,
            n * PAGE_SIZE >= size,
            n == 0 || (n - 1) * PAGE_SIZE < size,
    {
        (size + 4095) / 4096
    }

    /// Pad an Ethernet frame size to the minimum frame size.
    pub fn pad_frame_size(size: usize) -> (n: usize)
        ensures
            n == padded_size(size as int),
            n >= MIN_ETH_FRAME_SIZE && n >= size,
    {
        if size < MIN_ETH_FRAME_SIZE {
            MIN_ETH_FRAME_SIZE
        } else {
            size
        }
    }
}

/// Padding is idempotent: a padded size is at least the minimum frame size
/// and is its own padding; a size of at least the minimum is kept.
pub proof fn lemma_pad_idempotent(size: int)
    ensures
        padded_size(size) >= MIN_ETH_FRAME_SIZE,
        padded_size(padded_size(size)) == padded_size(size),
        size >= MIN_ETH_FRAME_SIZE ==> padded_size(size) == size,
{
}

/// The page count is the fewest pages that hold `size` bytes.
pub proof fn lemma_pages_needed_minimal(size: int)
    ensures
        pages_needed(size as int) * 4096 >= size,
        pages_needed(size as int) == 0 || (pages_needed(size as int) - 1) * 4096 < size,
{
}

} // verus!
