//! The RealTek driver selected by device series, behind one type.
use vstd::prelude::*;

use super::common::{alloc_failed, allocated, dma_freed, pages_needed, DeviceIo};
use super::device_info::{realtek_devices, realtek_device_table, RealtekDeviceInfo, RealtekSeries};
use super::kernel_func::KernelFunc;
use super::lookup::{device_entry, find_from};
use super::rtl8139::{self, Rtl8139Driver, RxPacket};
use super::regs::descriptor::DESC_OWN;
use super::rtl8169::{self, Rtl8169Driver, RxBuffer};
use crate::types::{DevError, DevResult, EthernetAddress};

verus! {

/// RealTek unified driver.
pub enum RealtekDriverNic {
    Rtl8139(Rtl8139Driver),
    Rtl8169(Rtl8169Driver),
}

/// What creating the driver for the device described by `info` did,
/// returning `r`: a driver of the series' kind created fresh for the window
/// at `base` and the line `irq` (see `fresh_driver`), then its
/// initialization; an error is the initialization's, after which the
/// RTL8139 driver was shut down and the gigabit driver released.
pub open spec fn created_from<K: KernelFunc, I: DeviceIo>(io: &I, info: RealtekDeviceInfo, base: usize, irq: u8, r: DevResult<RealtekDriverNic>) -> bool {
    &&& (r is Ok ==> r->Ok_0.operable())
    &&& (r matches Ok(RealtekDriverNic::Rtl8139(d)) ==> info.series == RealtekSeries::Rtl8139
        && exists|d0: Rtl8139Driver, d1: Rtl8139Driver| #[trigger] rtl8139::initialized::<K, I>(io, d0, d1, Ok(()))
            && d1 == d && rtl8139::fresh_driver(d0, base, irq))
    &&& (r matches Ok(RealtekDriverNic::Rtl8169(d)) ==> info.series != RealtekSeries::Rtl8139 && r->Ok_0.ready()
        && exists|d0: Rtl8169Driver, d1: Rtl8169Driver| #[trigger] rtl8169::initialized::<K, I>(io, d0, d1, Ok(()))
            && d1 == d && rtl8169::fresh_driver(d0, base, irq, info.series))
    &&& (r is Err && info.series == RealtekSeries::Rtl8139 ==> exists|d0: Rtl8139Driver, d1: Rtl8139Driver, e: DevError|
        #[trigger] rtl8139::initialized::<K, I>(io, d0, d1, Err(e)) && r == Err::<RealtekDriverNic, DevError>(e)
            && rtl8139::fresh_driver(d0, base, irq)
            && exists|d2: Rtl8139Driver| #[trigger] rtl8139::shut_down::<K, I>(io, d1, d2))
    &&& (r is Err && info.series != RealtekSeries::Rtl8139 ==> exists|d0: Rtl8169Driver, d1: Rtl8169Driver, e: DevError|
        #[trigger] rtl8169::initialized::<K, I>(io, d0, d1, Err(e)) && r == Err::<RealtekDriverNic, DevError>(e)
            && rtl8169::fresh_driver(d0, base, irq, info.series) && rtl8169::released::<K>(d1))
}

/// An RTL8139 driver created fresh and initialized is what `created_from`
/// describes.
proof fn lemma_created_rtl8139<K: KernelFunc, I: DeviceIo>(io: &I, info: RealtekDeviceInfo, base: usize, irq: u8,
    d0: Rtl8139Driver, d1: Rtl8139Driver)
    requires
        info.series == RealtekSeries::Rtl8139,
        rtl8139::fresh_driver(d0, base, irq),
        rtl8139::initialized::<K, I>(io, d0, d1, Ok(())),
    ensures
        created_from::<K, I>(io, info, base, irq, Ok(RealtekDriverNic::Rtl8139(d1))),
{
}

/// An RTL8139 driver created fresh whose initialization failed, then shut
/// down, is what `created_from` describes.
proof fn lemma_failed_rtl8139<K: KernelFunc, I: DeviceIo>(io: &I, info: RealtekDeviceInfo, base: usize, irq: u8,
    d0: Rtl8139Driver, d1: Rtl8139Driver, d2: Rtl8139Driver, e: DevError)
    requires
        info.series == RealtekSeries::Rtl8139,
        rtl8139::fresh_driver(d0, base, irq),
        rtl8139::initialized::<K, I>(io, d0, d1, Err(e)),
        rtl8139::shut_down::<K, I>(io, d1, d2),
    ensures
        created_from::<K, I>(io, info, base, irq, Err(e)),
{
}

/// The packet of an RTL8139 receive result, as a frame.
pub open spec fn frame_of_packet(r: DevResult<RxPacket>) -> DevResult<RxFrame> {
    match r {
        Ok(p) => Ok(RxFrame { vaddr: p.vaddr, len: p.len }),
        Err(e) => Err(e),
    }
}

/// The buffer of an RTL8169 receive result, as a frame.
pub open spec fn frame_of_buffer(r: DevResult<RxBuffer>) -> DevResult<RxFrame> {
    match r {
        Ok(b) => Ok(RxFrame { vaddr: b.vaddr, len: b.len }),
        Err(e) => Err(e),
    }
}

/// A received packet: a DMA buffer and the packet length.
pub struct RxFrame {
    /// Virtual address of the buffer that holds the packet.
    pub vaddr: usize,
    /// Length of the packet.
    pub len: usize,
}

impl RealtekDriverNic {
    /// Whether the driver can be operated: an RTL8169-series driver has its
    /// rings (an RTL8139 driver always can).
    pub open spec fn operable(&self) -> bool {
        self matches RealtekDriverNic::Rtl8169(d) ==> d.wf() && d.rings_ready()
    }

    /// Whether the driver can receive: it can be operated, and an RTL8139
    /// driver has room to read the next packet without address overflow.
    pub open spec fn ready(&self) -> bool {
        &&& self.operable()
        &&& self matches RealtekDriverNic::Rtl8139(d) ==> d.rx_vaddr() + d.rx_offset() + 0x1_0010 <= usize::MAX
    }

    /// Number of calls the driver has made to the kernel services.
    pub open spec fn calls_made(&self) -> int {
        match self {
            RealtekDriverNic::Rtl8139(d) => d.calls_made(),
            RealtekDriverNic::Rtl8169(d) => d.calls_made(),
        }
    }

    /// Whether the driver is in a state that `receive` accepts.
    pub fn is_ready(&self) -> (r: bool)
        requires
            self.operable(),
        ensures
            r == self.ready(),
    {
        match self {
            RealtekDriverNic::Rtl8139(d) => d.rx_pointer_in_range(),
            RealtekDriverNic::Rtl8169(_) => true,
        }
    }

    /// Find device info by vendor and device ID.
    pub fn find_device_info(vendor_id: u16, device_id: u16) -> (r: Option<RealtekDeviceInfo>)
        ensures
            r == device_entry(vendor_id, device_id),
    {
        let devices = realtek_devices();
        let mut i: usize = 0;
        while i < devices.len()
            invariant
                devices@ == realtek_device_table(),
                i <= devices@.len(),
                find_from(devices@, 0, vendor_id, device_id) == find_from(devices@, i as int, vendor_id, device_id),
            decreases devices@.len() - i,
        {
            let info = devices[i];
            if info.vendor_id == vendor_id && info.device_id == device_id {
                return Some(info);
            }
            i = i + 1;
        }
        None
    }

    /// Create and initialize the driver for the series of `device_info`:
    /// RTL8139 for the RTL8139 series, the gigabit driver for the others.
    /// A driver whose initialization failed is shut down (RTL8139: the
    /// device disabled) and its buffers given back.
    pub fn create_from_info<K: KernelFunc, I: DeviceIo>(device_info: &RealtekDeviceInfo, base_addr: usize, irq: u8, io: &I) -> (r: DevResult<Self>)
        ensures
            created_from::<K, I>(io, *device_info, base_addr, irq, r),
            r matches Err(e) ==> e == DevError::BadState || e == DevError::NoMemory,
    {
        match device_info.series {
            RealtekSeries::Rtl8139 => {
                let mut drv = match Rtl8139Driver::new(base_addr, irq) {
                    Ok(d) => d,
                    Err(e) => return Err(e),
                };
                let ghost d0 = drv;
                if let Err(e) = drv.init::<K, I>(io) {
                    let ghost d1 = drv;
                    // Disable the device and give back what was allocated
                    drv.shutdown::<K, I>(io);
                    let r = Err(e);
                    proof {
                        lemma_failed_rtl8139::<K, I>(io, *device_info, base_addr, irq, d0, d1, drv, e);
                    }
                    return r;
                }
                proof {
                    lemma_created_rtl8139::<K, I>(io, *device_info, base_addr, irq, d0, drv);
                }
                let r = Ok(RealtekDriverNic::Rtl8139(drv));
                r
            },
            _ => {
                let mut drv = match Rtl8169Driver::new(base_addr, irq, device_info.series) {
                    Ok(d) => d,
                    Err(e) => return Err(e),
                };
                let ghost d0 = drv;
                if let Err(e) = drv.init::<K, I>(io) {
                    let ghost d1 = drv;
                    // Give back what was allocated
                    drv.release::<K>();
                    let r = Err(e);
                    assert(rtl8169::initialized::<K, I>(io, d0, d1, Err(e)) && rtl8169::released::<K>(d1));
                    assert(created_from::<K, I>(io, *device_info, base_addr, irq, r));
                    return r;
                }
                assert(rtl8169::initialized::<K, I>(io, d0, drv, Ok(())));
                let r = Ok(RealtekDriverNic::Rtl8169(drv));
                assert(created_from::<K, I>(io, *device_info, base_addr, irq, r));
                r
            },
        }
    }

    /// Device name.
    pub fn device_name(&self) -> (s: &'static str)
        ensures
            self matches RealtekDriverNic::Rtl8139(d) ==> s@ == "rtl8139"@,
            self matches RealtekDriverNic::Rtl8169(d) ==> match d.chip_series() {
                RealtekSeries::Rtl8169 => s@ == "rtl8169"@,
                RealtekSeries::Rtl8168 => s@ == "rtl8168"@,
                RealtekSeries::Rtl8111 => s@ == "rtl8111"@,
                RealtekSeries::Rtl8139 => s@ == "rtl8169-series"@,
            },
    {
        match self {
            RealtekDriverNic::Rtl8139(d) => d.device_name(),
            RealtekDriverNic::Rtl8169(d) => d.device_name(),
        }
    }

    /// The MAC address.
    pub fn mac_address(&self) -> (mac: EthernetAddress)
        ensures
            mac.0 == match self {
                RealtekDriverNic::Rtl8139(d) => d.mac_bytes(),
                RealtekDriverNic::Rtl8169(d) => d.mac_bytes(),
            },
    {
        match self {
            RealtekDriverNic::Rtl8139(d) => d.mac_address(),
            RealtekDriverNic::Rtl8169(d) => d.mac_address(),
        }
    }

    /// Whether a frame can be handed to the device now: always for the
    /// RTL8139 driver; for the gigabit driver, whether the current transmit
    /// descriptor, read with `read_mem32`, belongs to the CPU.
    pub fn can_transmit<R: Fn(usize) -> u32>(&self, read_mem32: &R) -> (r: bool)
        requires
            self.operable(),
            forall|a: usize| #[trigger] read_mem32.requires((a,)),
        ensures
            self is Rtl8139 ==> r,
            self matches RealtekDriverNic::Rtl8169(d) ==> exists|v: u32|
                #[trigger] read_mem32.ensures((d.current_tx_desc(),), v) && r == (v & DESC_OWN == 0),
    {
        match self {
            RealtekDriverNic::Rtl8139(d) => d.can_transmit(),
            RealtekDriverNic::Rtl8169(d) => d.can_transmit(read_mem32),
        }
    }

    /// Whether a received frame may be waiting: always for the RTL8139
    /// driver; for the gigabit driver, whether the current receive
    /// descriptor, read with `read_mem32`, has been filled by the NIC.
    pub fn can_receive<R: Fn(usize) -> u32>(&self, read_mem32: &R) -> (r: bool)
        requires
            self.operable(),
            forall|a: usize| #[trigger] read_mem32.requires((a,)),
        ensures
            self is Rtl8139 ==> r,
            self matches RealtekDriverNic::Rtl8169(d) ==> exists|v: u32|
                #[trigger] read_mem32.ensures((d.current_rx_desc(),), v) && r == (v & DESC_OWN == 0),
    {
        match self {
            RealtekDriverNic::Rtl8139(d) => d.can_receive(),
            RealtekDriverNic::Rtl8169(d) => d.can_receive(read_mem32),
        }
    }

    /// Receive queue size.
    pub fn rx_queue_size(&self) -> (n: usize)
        ensures
            n == if self is Rtl8139 { 1usize } else { 128usize },
    {
        match self {
            RealtekDriverNic::Rtl8139(d) => d.rx_queue_size(),
            RealtekDriverNic::Rtl8169(d) => d.rx_queue_size(),
        }
    }

    /// Transmit queue size.
    pub fn tx_queue_size(&self) -> (n: usize)
        ensures
            n == if self is Rtl8139 { 4usize } else { 128usize },
    {
        match self {
            RealtekDriverNic::Rtl8139(d) => d.tx_queue_size(),
            RealtekDriverNic::Rtl8169(d) => d.tx_queue_size(),
        }
    }

    /// Give back a packet buffer of `len` bytes at `vaddr` (the driver's
    /// next kernel call).
    pub fn recycle_rx_buffer<K: KernelFunc>(&mut self, vaddr: usize, len: usize) -> (r: DevResult)
        requires
            len + 4095 <= usize::MAX,
        ensures
            r is Ok,
            dma_freed::<K>(old(self).calls_made(), vaddr, pages_needed(len as int) as usize),
            final(self).calls_made() == old(self).calls_made() + 1,
            *old(self) matches RealtekDriverNic::Rtl8139(d0) ==> (*final(self) matches RealtekDriverNic::Rtl8139(d1)
                && d1.same_state(d0) && d1.base() == d0.base() && d1.accesses() == d0.accesses()),
            *old(self) matches RealtekDriverNic::Rtl8169(d0) ==> (*final(self) matches RealtekDriverNic::Rtl8169(d1)
                && d1.same_but_calls(d0)),
            final(self).operable() == old(self).operable(),
            final(self).ready() == old(self).ready(),
    {
        match self {
            RealtekDriverNic::Rtl8139(d) => d.recycle_rx_buffer::<K>(vaddr, len),
            RealtekDriverNic::Rtl8169(d) => d.recycle_rx_buffer::<K>(vaddr, len),
        }
    }

    /// Reclaim transmitted buffers: nothing to do for either driver.
    pub fn recycle_tx_buffers(&mut self) -> (r: DevResult)
        ensures
            r is Ok,
            *final(self) == *old(self),
    {
        match self {
            RealtekDriverNic::Rtl8139(d) => d.recycle_tx_buffers(),
            RealtekDriverNic::Rtl8169(d) => d.recycle_tx_buffers(),
        }
    }

    /// Transmit the frame `data`, held in the packet buffer of `len` bytes
    /// at `vaddr` (which the RTL8139 driver gives back after the attempt,
    /// by its next kernel call).
    pub fn transmit<K: KernelFunc, I: DeviceIo>(&mut self, io: &I, data: &[u8], vaddr: usize, len: usize) -> (r: DevResult)
        requires
            old(self).operable(),
            len + 4095 <= usize::MAX,
        ensures
            *old(self) matches RealtekDriverNic::Rtl8139(d0) ==> (*final(self) matches RealtekDriverNic::Rtl8139(d1)
                && rtl8139::transmitted(io, d0, d1, data, r)
                && dma_freed::<K>(d0.calls_made(), vaddr, pages_needed(len as int) as usize)
                && d1.calls_made() == d0.calls_made() + 1),
            *old(self) matches RealtekDriverNic::Rtl8169(d0) ==> (*final(self) matches RealtekDriverNic::Rtl8169(d1)
                && rtl8169::transmitted(io, d0, d1, data, r)),
            r matches Err(e) ==> e == DevError::InvalidParam || e == DevError::Again,
            data@.len() > 2048 ==> r == Err::<(), DevError>(DevError::InvalidParam),
            final(self).operable(),
            final(self).ready() == old(self).ready(),
    {
        match self {
            RealtekDriverNic::Rtl8139(d) => d.transmit::<K, I>(io, data, vaddr, len),
            RealtekDriverNic::Rtl8169(d) => d.transmit(io, data),
        }
    }

    /// Receive a packet (see each driver's `do_receive`).
    pub fn receive<K: KernelFunc, I: DeviceIo>(&mut self, io: &I) -> (r: DevResult<RxFrame>)
        requires
            old(self).ready(),
        ensures
            *old(self) matches RealtekDriverNic::Rtl8139(d0) ==> (*final(self) matches RealtekDriverNic::Rtl8139(d1)
                && exists|x0: Rtl8139Driver, x1: Rtl8139Driver, p: DevResult<RxPacket>| #[trigger] rtl8139::received::<K, I>(io, x0, x1, p)
                    && x0 == d0 && x1 == d1 && r == frame_of_packet(p)),
            *old(self) matches RealtekDriverNic::Rtl8169(d0) ==> (*final(self) matches RealtekDriverNic::Rtl8169(d1)
                && exists|x0: Rtl8169Driver, x1: Rtl8169Driver, b: DevResult<RxBuffer>| #[trigger] rtl8169::received::<K, I>(io, x0, x1, b)
                    && x0 == d0 && x1 == d1 && r == frame_of_buffer(b)),
            r matches Ok(f) ==> f.vaddr != 0,
            final(self).operable(),
            *old(self) is Rtl8169 ==> final(self).ready(),
    {
        match self {
            RealtekDriverNic::Rtl8139(d) => {
                let ghost d0 = *d;
                let p = d.receive::<K, I>(io);
                let ghost gp = p;
                let ghost d1 = *d;
                assert(rtl8139::received::<K, I>(io, d0, d1, gp));
                let f = match p {
                    Ok(p) => Ok(RxFrame { vaddr: p.vaddr, len: p.len }),
                    Err(e) => Err(e),
                };
                assert(f == frame_of_packet(gp));
                f
            },
            RealtekDriverNic::Rtl8169(d) => {
                let ghost d0 = *d;
                let b = d.receive::<K, I>(io);
                let ghost gb = b;
                let ghost d1 = *d;
                assert(rtl8169::received::<K, I>(io, d0, d1, gb));
                let f = match b {
                    Ok(b) => Ok(RxFrame { vaddr: b.vaddr, len: b.len }),
                    Err(e) => Err(e),
                };
                assert(f == frame_of_buffer(gb));
                f
            },
        }
    }

    /// Shut the driver down: the RTL8139 driver disables the controller and
    /// frees its buffers; the gigabit driver frees its rings and buffers.
    pub fn release<K: KernelFunc, I: DeviceIo>(self, io: &I)
        ensures
            self matches RealtekDriverNic::Rtl8139(d) ==> exists|d0: Rtl8139Driver, d1: Rtl8139Driver|
                #[trigger] rtl8139::shut_down::<K, I>(io, d0, d1) && d0 == d,
            self matches RealtekDriverNic::Rtl8169(d) ==> rtl8169::released::<K>(d),
    {
        match self {
            RealtekDriverNic::Rtl8139(d) => {
                let mut d = d;
                let ghost d0 = d;
                d.shutdown::<K, I>(io);
                assert(rtl8139::shut_down::<K, I>(io, d0, d));
            },
            RealtekDriverNic::Rtl8169(d) => d.release::<K>(),
        }
    }

    /// Allocate a transmit buffer of `size` bytes (the driver's next kernel
    /// call); returns its virtual address.
    pub fn alloc_tx_buffer<K: KernelFunc>(&mut self, size: usize) -> (r: DevResult<usize>)
        ensures
            size > 2048 ==> r == Err::<usize, DevError>(DevError::InvalidParam)
                && final(self).calls_made() == old(self).calls_made(),
            size <= 2048 ==> final(self).calls_made() == old(self).calls_made() + 1 && match r {
                Ok(v) => v != 0 && allocated::<K>(old(self).calls_made(), pages_needed(size as int), v),
                Err(e) => e == DevError::NoMemory && alloc_failed::<K>(old(self).calls_made(), pages_needed(size as int)),
            },
            *old(self) is Rtl8139 <==> *final(self) is Rtl8139,
            final(self).operable() == old(self).operable(),
            final(self).ready() == old(self).ready(),
    {
        match self {
            RealtekDriverNic::Rtl8139(d) => d.alloc_tx_buffer::<K>(size),
            RealtekDriverNic::Rtl8169(d) => d.alloc_tx_buffer::<K>(size),
        }
    }
}

/// Create the RealTek driver for a PCI device: `InvalidParam` for a device
/// that is not in the database.
pub fn create_driver<K: KernelFunc, I: DeviceIo>(vendor_id: u16, device_id: u16, base_addr: usize, irq: u8, io: &I) -> (r: DevResult<RealtekDriverNic>)
    ensures
        device_entry(vendor_id, device_id) is None <==> r == Err::<RealtekDriverNic, DevError>(DevError::InvalidParam),
        device_entry(vendor_id, device_id) matches Some(info) ==> created_from::<K, I>(io, info, base_addr, irq, r),
{
    let device_info = match RealtekDriverNic::find_device_info(vendor_id, device_id) {
        Some(info) => info,
        None => return Err(DevError::InvalidParam),
    };
    RealtekDriverNic::create_from_info::<K, I>(&device_info, base_addr, irq, io)
}

} // verus!
