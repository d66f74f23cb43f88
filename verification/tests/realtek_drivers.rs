use std::cell::RefCell;
use std::sync::Mutex;
use std::collections::HashMap;

use axdriver_net::realtek::common::IoWrite;
use axdriver_net::realtek::regs::descriptor::{DESC_EOR, DESC_FS, DESC_LS, DESC_OWN, DESC_RX_RES};
use axdriver_net::realtek::regs::{rtl8139 as r39, rtl8169 as r69};
use axdriver_net::realtek::{
    create_driver, get_device_info, is_realtek_device, realtek_devices, DeviceIo, DmaBuffer,
    DmaBufferArray, KernelFunc, MmioOps, RealtekCommon, RealtekDriverNic, RealtekSeries,
    Rtl8139Driver, Rtl8169Driver,
};
use axdriver_net::calls::CallNo;
use axdriver_net::{DevError, EthernetAddress};

const PHYS_OFFSET: usize = 0x4000_0000;

static NEXT_ADDR: Mutex<usize> = Mutex::new(0x10_0000);
static ALLOCS: Mutex<usize> = Mutex::new(0);
static FAIL_FROM: Mutex<usize> = Mutex::new(usize::MAX);
static FREED: Mutex<Vec<(usize, usize)>> = Mutex::new(Vec::new());
static WAITS: Mutex<usize> = Mutex::new(0);
static WAIT_LENGTHS: Mutex<Vec<core::time::Duration>> = Mutex::new(Vec::new());

/// Puts the platform back in its initial state.
fn reset_platform() {
    *NEXT_ADDR.lock().unwrap() = 0x10_0000;
    *ALLOCS.lock().unwrap() = 0;
    *FAIL_FROM.lock().unwrap() = usize::MAX;
    FREED.lock().unwrap().clear();
    *WAITS.lock().unwrap() = 0;
    WAIT_LENGTHS.lock().unwrap().clear();
}

/// Allocation number `n` (counting from now, from 0) and all later ones fail.
fn fail_allocations_from(n: usize) {
    let done = *ALLOCS.lock().unwrap();
    *FAIL_FROM.lock().unwrap() = done + n;
}

fn freed() -> Vec<(usize, usize)> {
    FREED.lock().unwrap().clone()
}

fn waits() -> usize {
    *WAITS.lock().unwrap()
}

struct Kernel;

impl KernelFunc for Kernel {
    fn virt_to_phys(addr: usize) -> usize {
        addr + PHYS_OFFSET
    }
    fn phys_to_virt(addr: usize) -> usize {
        addr - PHYS_OFFSET
    }
    fn dma_alloc_coherent(pages: usize, _call: &CallNo) -> (usize, usize) {
        let n = {
            let mut a = ALLOCS.lock().unwrap();
            *a += 1;
            *a - 1
        };
        if n >= *FAIL_FROM.lock().unwrap() {
            return (0, 0);
        }
        let mut next = NEXT_ADDR.lock().unwrap();
        let v = *next;
        *next = v + (pages + 1) * 4096;
        (v, v + PHYS_OFFSET)
    }
    fn dma_free_coherent(vaddr: usize, pages: usize, _call: &CallNo) {
        FREED.lock().unwrap().push((vaddr, pages));
    }
    fn get_time_us() -> u64 {
        0
    }
    fn busy_wait(duration: core::time::Duration, _call: &CallNo) {
        *WAITS.lock().unwrap() += 1;
        WAIT_LENGTHS.lock().unwrap().push(duration);
    }
}

/// A device: registers by offset, sparse byte memory, a log of register
/// writes, and bits that the device clears as soon as they are written.
struct Device {
    regs: RefCell<HashMap<u16, u32>>,
    mem: RefCell<HashMap<usize, u8>>,
    writes: RefCell<Vec<(u16, u32)>>,
    self_clearing: Vec<(u16, u32)>,
}

impl Device {
    fn new(self_clearing: Vec<(u16, u32)>) -> Self {
        Device {
            regs: RefCell::new(HashMap::new()),
            mem: RefCell::new(HashMap::new()),
            writes: RefCell::new(Vec::new()),
            self_clearing,
        }
    }
    fn set_reg(&self, off: u16, v: u32) {
        self.regs.borrow_mut().insert(off, v);
    }
    fn reg(&self, off: u16) -> u32 {
        *self.regs.borrow().get(&off).unwrap_or(&0)
    }
    fn write(&self, off: u16, v: u32) {
        self.writes.borrow_mut().push((off, v));
        let mut v = v;
        for (o, bits) in &self.self_clearing {
            if *o == off {
                v &= !bits;
            }
        }
        self.set_reg(off, v);
    }
    fn written(&self, off: u16) -> Vec<u32> {
        self.writes.borrow().iter().filter(|(o, _)| *o == off).map(|(_, v)| *v).collect()
    }
    fn put(&self, addr: usize, data: &[u8]) {
        let mut m = self.mem.borrow_mut();
        for (i, b) in data.iter().enumerate() {
            m.insert(addr + i, *b);
        }
    }
    fn get(&self, addr: usize, len: usize) -> Vec<u8> {
        let m = self.mem.borrow();
        (0..len).map(|i| *m.get(&(addr + i)).unwrap_or(&0)).collect()
    }
}

impl DeviceIo for Device {
    fn read8(&self, _mmio: &MmioOps, offset: u16) -> u8 {
        self.reg(offset) as u8
    }
    fn read16(&self, _mmio: &MmioOps, offset: u16) -> u16 {
        self.reg(offset) as u16
    }
    fn read32(&self, _mmio: &MmioOps, offset: u16) -> u32 {
        self.reg(offset)
    }
    fn write8(&self, _mmio: &MmioOps, offset: u16, value: u8) {
        self.write(offset, value as u32);
    }
    fn write16(&self, _mmio: &MmioOps, offset: u16, value: u16) {
        self.write(offset, value as u32);
    }
    fn write32(&self, _mmio: &MmioOps, offset: u16, value: u32) {
        self.write(offset, value);
    }
    fn read_mem32(&self, addr: usize) -> u32 {
        let b = self.get(addr, 4);
        u32::from_le_bytes([b[0], b[1], b[2], b[3]])
    }
    fn write_mem32(&self, addr: usize, value: u32) {
        self.put(addr, &value.to_le_bytes());
    }
    fn copy_to_mem(&self, dst: usize, data: &[u8]) {
        self.put(dst, data);
    }
    fn copy_mem(&self, src: usize, dst: usize, len: usize) {
        let data = self.get(src, len);
        self.put(dst, &data);
    }
}

fn rtl8139_device() -> Device {
    let dev = Device::new(vec![(r39::CR, r39::CR_RST as u32)]);
    dev.set_reg(r39::IDR0, 0x7856_3412);
    dev.set_reg(r39::IDR4, 0xbc9a);
    for k in 0..4u16 {
        dev.set_reg(r39::TSD0 + 4 * k, r39::TSD_OWN);
    }
    dev
}

fn rtl8169_device() -> Device {
    let dev = Device::new(vec![(r69::CMD, r69::CMD_RST as u32)]);
    for (i, b) in [0x00u8, 0xe0, 0x4c, 0x68, 0x01, 0x02].iter().enumerate() {
        dev.set_reg(r69::IDR0 + i as u16, *b as u32);
    }
    dev
}

// ---- Device database ----

#[test]
fn device_database_lookup() {
    reset_platform();
    assert_eq!(realtek_devices().len(), 14);
    assert!(is_realtek_device(0x10ec, 0x8139));
    assert!(is_realtek_device(0x1113, 0x1211));
    assert!(!is_realtek_device(0x10ec, 0x1234));
    assert!(!is_realtek_device(0x8086, 0x8139));
    let info = get_device_info(0x10ec, 0x8125).unwrap();
    assert_eq!(info.name, "RTL8125 2.5GbE Controller");
    assert_eq!(info.series, RealtekSeries::Rtl8168);
    assert_eq!(info.max_speed_mbps, 2500);
    let info = get_device_info(0x10ec, 0x8136).unwrap();
    assert_eq!(info.series, RealtekSeries::Rtl8169);
    assert_eq!(info.max_speed_mbps, 100);
    assert!(get_device_info(0x10ec, 0x0000).is_none());
    assert_eq!(
        RealtekDriverNic::find_device_info(0x10ec, 0x8176).unwrap().series,
        RealtekSeries::Rtl8111
    );
}

// ---- Common utilities ----

#[test]
fn mmio_register_addresses() {
    reset_platform();
    let m = MmioOps::new(0xfe00_0000);
    assert_eq!(m.base_addr(), 0xfe00_0000);
    assert_eq!(m.reg_addr(0x37), 0xfe00_0037);
}

#[test]
fn dma_buffer_from_allocation() {
    reset_platform();
    assert_eq!(DmaBuffer::from_allocation(1, 0, 0).err(), Some(DevError::NoMemory));
    let b = DmaBuffer::from_allocation(3, 0x5000, 0x9000).unwrap();
    assert_eq!(b.vaddr(), 0x5000);
    assert_eq!(b.paddr(), 0x9000);
    assert_eq!(b.pages(), 3);
    assert_eq!(b.size(), 3 * 4096);
}

#[test]
fn dma_buffer_allocate_and_free() {
    reset_platform();
    let b = DmaBuffer::allocate::<Kernel>(5000, &mut CallNo::first()).unwrap();
    assert_eq!(b.pages(), 2);
    assert_eq!(b.size(), 8192);
    assert_eq!(b.paddr(), b.vaddr() + PHYS_OFFSET);
    let v = b.vaddr();
    b.free::<Kernel>(&mut CallNo::first());
    assert_eq!(freed(), vec![(v, 2)]);
    fail_allocations_from(0);
    assert_eq!(DmaBuffer::allocate::<Kernel>(100, &mut CallNo::first()).err(), Some(DevError::NoMemory));
}

#[test]
fn dma_buffer_array_alloc_all() {
    reset_platform();
    let mut a = DmaBufferArray::<4>::new();
    assert!(a.get(0).is_none());
    assert_eq!(a.vaddr(0), 0);
    assert_eq!(a.paddr(3), 0);
    assert_eq!(a.alloc_all::<Kernel>(2048, &mut CallNo::first()), Ok(()));
    for i in 0..4 {
        let b = a.get(i).unwrap();
        assert_ne!(b.vaddr(), 0);
        assert_eq!(b.pages(), 1);
        assert_eq!(a.vaddr(i), b.vaddr());
        assert_eq!(a.paddr(i), b.paddr());
    }
    assert!(a.get(4).is_none());
    assert_eq!(a.vaddr(4), 0);
    // Allocating again frees the buffers that are replaced
    let first = a.vaddr(0);
    assert_eq!(a.alloc_all::<Kernel>(2048, &mut CallNo::first()), Ok(()));
    assert_eq!(freed().len(), 4);
    assert_eq!(freed()[0], (first, 1));
}

#[test]
fn dma_buffer_array_alloc_failure() {
    reset_platform();
    let mut a = DmaBufferArray::<4>::new();
    fail_allocations_from(2);
    assert_eq!(a.alloc_all::<Kernel>(100, &mut CallNo::first()), Err(DevError::NoMemory));
    assert!(a.get(0).is_some());
    assert!(a.get(1).is_some());
    assert!(a.get(2).is_none());
    assert!(a.get(3).is_none());
}

#[test]
fn common_read_mac_address() {
    reset_platform();
    let dev = rtl8169_device();
    let mut m = MmioOps::new(0);
    let mac = RealtekCommon::read_mac_address(&dev, &mut m, r69::IDR0);
    assert_eq!(mac, EthernetAddress([0x00, 0xe0, 0x4c, 0x68, 0x01, 0x02]));
}

#[test]
fn common_software_reset() {
    reset_platform();
    let mut m = MmioOps::new(0);
    let dev = Device::new(vec![(0x37, 0x10)]);
    dev.set_reg(0x37, 0x0c);
    let r = RealtekCommon::software_reset::<Kernel, _>(&dev, &mut m, &mut CallNo::first(), 0x37, 0x10, 1);
    assert_eq!(r, Ok(()));
    // The reset bit is set on top of the command register's value
    assert_eq!(dev.written(0x37), vec![0x1c]);
    assert_eq!(waits(), 0);
    // A device that never clears the bit: 100 polls per millisecond
    let stuck = Device::new(vec![]);
    let r = RealtekCommon::software_reset::<Kernel, _>(&stuck, &mut m, &mut CallNo::first(), 0x37, 0x10, 2);
    assert_eq!(r, Err(DevError::BadState));
    assert_eq!(waits(), 200);
}

#[test]
fn common_wait_for_bit() {
    reset_platform();
    let mut m = MmioOps::new(0);
    let dev = Device::new(vec![]);
    dev.set_reg(0x6c, 0x02);
    let r = RealtekCommon::wait_for_bit::<Kernel, _>(&dev, &mut m, &mut CallNo::first(), 0x6c, 0x02, true, 100);
    assert_eq!(r, Ok(()));
    let r = RealtekCommon::wait_for_bit::<Kernel, _>(&dev, &mut m, &mut CallNo::first(), 0x6c, 0x01, false, 100);
    assert_eq!(r, Ok(()));
    assert_eq!(waits(), 0);
    let r = RealtekCommon::wait_for_bit::<Kernel, _>(&dev, &mut m, &mut CallNo::first(), 0x6c, 0x02, false, 100);
    assert_eq!(r, Err(DevError::BadState));
    assert_eq!(waits(), 10);
}

// ---- RTL8139 ----

#[test]
fn rtl8139_register_helpers() {
    reset_platform();
    assert_eq!(
        Rtl8139Driver::mac_from_regs(0x7856_3412, 0xbc9a),
        EthernetAddress([0x12, 0x34, 0x56, 0x78, 0x9a, 0xbc])
    );
    assert_eq!(Rtl8139Driver::tsad_offset(0), 0x20);
    assert_eq!(Rtl8139Driver::tsad_offset(3), 0x2c);
    assert_eq!(Rtl8139Driver::tsd_offset(2), 0x18);
    assert!(Rtl8139Driver::tx_desc_available(0x2000));
    assert!(Rtl8139Driver::tx_desc_available(0x8000));
    assert!(!Rtl8139Driver::tx_desc_available(0x4000 | 60));
    assert_eq!(Rtl8139Driver::tx_frame_len(10), 60);
    assert_eq!(Rtl8139Driver::tx_frame_len(1514), 1514);
    assert_eq!(Rtl8139Driver::advance_rx_offset(0, 64), 68);
    assert_eq!(Rtl8139Driver::advance_rx_offset(0, 65), 72);
    assert_eq!(Rtl8139Driver::advance_rx_offset(8, 68), 80);
    assert_eq!(Rtl8139Driver::capr_value(0), 0xfff0);
    assert_eq!(Rtl8139Driver::capr_value(72), 56);
}

#[test]
fn rtl8139_new_driver() {
    reset_platform();
    let d = Rtl8139Driver::new(0x1000, 11).unwrap();
    assert_eq!(d.irq_number(), 11);
    assert_eq!(d.device_name(), "rtl8139");
    assert_eq!(d.mac_address(), EthernetAddress([0; 6]));
    assert_eq!(d.mmio().base_addr(), 0x1000);
    assert!(d.can_transmit());
    assert!(d.can_receive());
    assert_eq!(d.rx_queue_size(), 1);
    assert_eq!(d.tx_queue_size(), 4);
    assert!(d.rx_pointer_in_range());
}

#[test]
fn rtl8139_init_programs_the_device() {
    reset_platform();
    let dev = rtl8139_device();
    let mut d = Rtl8139Driver::new(0x1000, 11).unwrap();
    assert_eq!(d.init::<Kernel, _>(&dev), Ok(()));
    assert_eq!(d.mac_address(), EthernetAddress([0x12, 0x34, 0x56, 0x78, 0x9a, 0xbc]));
    let w = dev.writes.borrow().clone();
    assert_eq!(w[0], (r39::CONFIG1, 0));
    assert_eq!(w[1], (r39::CR, r39::CR_RST as u32));
    assert_eq!(dev.written(r39::CR), vec![0x10, 0x0c]);
    assert_eq!(dev.written(r39::TCR), vec![0x0300_0600]);
    assert_eq!(dev.written(r39::RCR), vec![0x0f8f]);
    assert_eq!(dev.written(r39::MPC), vec![0]);
    assert_eq!(dev.written(r39::IMR), vec![0x1f]);
    // The receive buffer (3 pages) was allocated first, then four transmit buffers
    let rb = dev.written(r39::RBSTART)[0] as usize;
    assert_eq!(rb, 0x10_0000 + PHYS_OFFSET);
    for k in 0..4u16 {
        let a = dev.written(r39::TSAD0 + 4 * k)[0] as usize;
        assert_eq!(a, 0x10_0000 + 4 * 4096 + (k as usize) * 2 * 4096 + PHYS_OFFSET);
    }
    assert_eq!(waits(), 0);
}

#[test]
fn rtl8139_reset_timeout() {
    reset_platform();
    let dev = Device::new(vec![]);
    let mut d = Rtl8139Driver::new(0x1000, 11).unwrap();
    assert_eq!(d.init::<Kernel, _>(&dev), Err(DevError::BadState));
    assert_eq!(waits(), 1000);
}

#[test]
fn rtl8139_init_out_of_memory() {
    reset_platform();
    let dev = rtl8139_device();
    let mut d = Rtl8139Driver::new(0x1000, 11).unwrap();
    fail_allocations_from(0);
    assert_eq!(d.init::<Kernel, _>(&dev), Err(DevError::NoMemory));
    let dev = rtl8139_device();
    let mut d = Rtl8139Driver::new(0x1000, 11).unwrap();
    fail_allocations_from(3);
    assert_eq!(d.init::<Kernel, _>(&dev), Err(DevError::NoMemory));
}

#[test]
fn rtl8139_transmit_round_robin() {
    reset_platform();
    let dev = rtl8139_device();
    let mut d = Rtl8139Driver::new(0x1000, 11).unwrap();
    d.init::<Kernel, _>(&dev).unwrap();
    let frame: Vec<u8> = (0..100u8).collect();
    for k in 0..4u16 {
        assert_eq!(d.do_transmit(&dev, &frame), Ok(()));
        assert_eq!(dev.written(r39::TSD0 + 4 * k), vec![100]);
    }
    // Descriptor 0 is still sending
    assert_eq!(d.do_transmit(&dev, &frame), Err(DevError::Again));
    // Once it is done, it is used again
    dev.set_reg(r39::TSD0, r39::TSD_TOK);
    assert_eq!(d.do_transmit(&dev, &[1, 2, 3]), Ok(()));
    assert_eq!(dev.written(r39::TSD0), vec![100, 60]);
    let tx0 = dev.written(r39::TSAD0)[0] as usize - PHYS_OFFSET;
    assert_eq!(dev.get(tx0, 4), vec![1, 2, 3, 3]);
    assert_eq!(d.do_transmit(&dev, &[0u8; 2049]), Err(DevError::InvalidParam));
}

#[test]
fn rtl8139_transmit_gives_back_the_packet_buffer() {
    reset_platform();
    let dev = rtl8139_device();
    let mut d = Rtl8139Driver::new(0x1000, 11).unwrap();
    d.init::<Kernel, _>(&dev).unwrap();
    let v = d.alloc_tx_buffer::<Kernel>(1500).unwrap();
    assert_ne!(v, 0);
    assert_eq!(d.transmit::<Kernel, _>(&dev, &[7u8; 64], v, 1500), Ok(()));
    assert_eq!(freed(), vec![(v, 1)]);
    assert_eq!(d.transmit::<Kernel, _>(&dev, &[0u8; 3000], v, 3000), Err(DevError::InvalidParam));
    assert_eq!(freed(), vec![(v, 1), (v, 1)]);
    assert_eq!(d.alloc_tx_buffer::<Kernel>(2049), Err(DevError::InvalidParam));
    fail_allocations_from(0);
    assert_eq!(d.alloc_tx_buffer::<Kernel>(100), Err(DevError::NoMemory));
    assert_eq!(d.recycle_tx_buffers(), Ok(()));
}

#[test]
fn rtl8139_receive() {
    reset_platform();
    let dev = rtl8139_device();
    let mut d = Rtl8139Driver::new(0x1000, 11).unwrap();
    d.init::<Kernel, _>(&dev).unwrap();
    let rx = dev.written(r39::RBSTART)[0] as usize - PHYS_OFFSET;
    // Empty ring
    dev.set_reg(r39::CR, 0x0c | r39::CR_BUFE as u32);
    assert_eq!(d.receive::<Kernel, _>(&dev).err(), Some(DevError::Again));
    dev.set_reg(r39::CR, 0x0c);
    // A good packet of 64 bytes (68 with CRC) at offset 0
    let payload: Vec<u8> = (0..64u8).collect();
    dev.put(rx, &[0x01, 0x00, 68, 0x00]);
    dev.put(rx + 4, &payload);
    let p = d.receive::<Kernel, _>(&dev).unwrap();
    assert_eq!(p.len, 64);
    assert_eq!(dev.get(p.vaddr, 64), payload);
    assert_eq!(dev.written(r39::CAPR), vec![72 - 16]);
    // A packet without the receive-OK bit is skipped
    dev.put(rx + 72, &[0x00, 0x00, 100, 0x00]);
    assert_eq!(d.receive::<Kernel, _>(&dev).err(), Some(DevError::Again));
    assert_eq!(dev.written(r39::CAPR), vec![56, 176 - 16]);
    // A packet with a bad length is skipped too
    dev.put(rx + 176, &[0x01, 0x00, 30, 0x00]);
    assert_eq!(d.receive::<Kernel, _>(&dev).err(), Some(DevError::BadState));
    assert_eq!(dev.written(r39::CAPR), vec![56, 160, 212 - 16]);
    // No memory for the packet: nothing moves
    dev.put(rx + 212, &[0x01, 0x00, 68, 0x00]);
    fail_allocations_from(0);
    assert_eq!(d.receive::<Kernel, _>(&dev).err(), Some(DevError::NoMemory));
    assert_eq!(dev.written(r39::CAPR).len(), 3);
    assert_eq!(d.recycle_rx_buffer::<Kernel>(p.vaddr, p.len), Ok(()));
    assert_eq!(freed(), vec![(p.vaddr, 1)]);
}

#[test]
fn rtl8139_shutdown_frees_buffers() {
    reset_platform();
    let dev = rtl8139_device();
    let mut d = Rtl8139Driver::new(0x1000, 11).unwrap();
    d.init::<Kernel, _>(&dev).unwrap();
    d.shutdown::<Kernel, _>(&dev);
    assert_eq!(dev.written(r39::CR).last(), Some(&0));
    let f = freed();
    assert_eq!(f.len(), 5);
    assert_eq!(f[0], (0x10_0000, 3));
    for k in 1..5 {
        assert_eq!(f[k].1, 1);
    }
}

// ---- RTL8169 series ----

#[test]
fn rtl8169_descriptor_words() {
    reset_platform();
    assert_eq!(Rtl8169Driver::rx_desc_opts1(false), DESC_OWN | 2048);
    assert_eq!(Rtl8169Driver::rx_desc_opts1(true), DESC_OWN | 2048 | DESC_EOR);
    assert_eq!(Rtl8169Driver::tx_desc_opts1(0, 60), DESC_OWN | DESC_FS | DESC_LS | DESC_EOR | 60);
    assert_eq!(Rtl8169Driver::tx_desc_opts1(5, 100), DESC_OWN | DESC_FS | DESC_LS | 100);
    assert_eq!(Rtl8169Driver::tx_desc_opts1(127, 1514), DESC_OWN | DESC_FS | DESC_LS | DESC_EOR | 1514);
    assert!(Rtl8169Driver::rx_has_error(DESC_RX_RES | 100));
    assert!(!Rtl8169Driver::rx_has_error(DESC_FS | DESC_LS | 100));
    let d = Rtl8169Driver::buffer_descriptor(7, 0x1_2345_6789);
    assert_eq!((d.opts1, d.opts2, d.addr_low, d.addr_high), (7, 0, 0x2345_6789, 1));
}

#[test]
fn rtl8169_new_driver() {
    reset_platform();
    let d = Rtl8169Driver::new(0x2000, 5, RealtekSeries::Rtl8168).unwrap();
    assert_eq!(d.get_irq(), 5);
    assert_eq!(d.device_name(), "rtl8168");
    assert_eq!(d.rx_queue_size(), 128);
    assert_eq!(d.tx_queue_size(), 128);
    assert_eq!(Rtl8169Driver::new(0, 0, RealtekSeries::Rtl8169).unwrap().device_name(), "rtl8169");
    assert_eq!(Rtl8169Driver::new(0, 0, RealtekSeries::Rtl8111).unwrap().device_name(), "rtl8111");
}

#[test]
fn rtl8169_init_sets_rings_up() {
    reset_platform();
    let dev = rtl8169_device();
    let mut d = Rtl8169Driver::new(0x2000, 5, RealtekSeries::Rtl8169).unwrap();
    assert_eq!(d.init::<Kernel, _>(&dev), Ok(()));
    assert_eq!(d.mac_address(), EthernetAddress([0x00, 0xe0, 0x4c, 0x68, 0x01, 0x02]));
    assert_eq!(dev.written(r69::CFG_9346), vec![0xc0, 0x00]);
    assert_eq!(dev.written(r69::RCR), vec![1 | 2 | 4 | 8 | 0x700 | 0xe000]);
    assert_eq!(dev.written(r69::TCR), vec![0x700 | 0x300_0000]);
    assert_eq!(dev.written(r69::RMS), vec![2048]);
    assert_eq!(dev.written(r69::ETTHR), vec![0x3b]);
    assert_eq!(dev.written(r69::IMR), vec![1 | 4 | 2 | 8 | 0x20]);
    assert_eq!(dev.written(r69::CMD), vec![0x10, 0x04, 0x0c]);
    assert_eq!(dev.written(r69::MAR0), vec![0xffff_ffff]);
    // Ring addresses: the receive ring was allocated after the transmit ring
    let tx_ring = d.tx_desc(0);
    let rx_ring = d.rx_desc(0);
    assert_eq!(dev.written(r69::TNPDS_LO), vec![(tx_ring + PHYS_OFFSET) as u32]);
    assert_eq!(dev.written(r69::RDSAR_LO), vec![(rx_ring + PHYS_OFFSET) as u32]);
    assert_eq!(dev.written(r69::TNPDS_HI), vec![0]);
    assert_eq!(d.tx_desc(3), tx_ring + 48);
    // Receive descriptors are handed to the NIC, the last one ends the ring
    assert_eq!(dev.read_mem32(d.rx_desc(0)), DESC_OWN | 2048);
    assert_eq!(dev.read_mem32(d.rx_desc(127)), DESC_OWN | 2048 | DESC_EOR);
    assert_ne!(dev.read_mem32(d.rx_desc(0) + 8), 0);
    // Transmit descriptors belong to the CPU
    assert_eq!(dev.read_mem32(d.tx_desc(0)), 0);
    assert!(d.can_transmit(&|a: usize| dev.read_mem32(a)));
    assert!(!d.can_receive(&|a: usize| dev.read_mem32(a)));
}

#[test]
fn rtl8169_reset_timeout() {
    reset_platform();
    let dev = Device::new(vec![]);
    let mut d = Rtl8169Driver::new(0x2000, 5, RealtekSeries::Rtl8169).unwrap();
    assert_eq!(d.init::<Kernel, _>(&dev), Err(DevError::BadState));
    // 10 s: 10000 ms of 100 polls, 10us apart
    assert_eq!(waits(), 10000 * 100);
}

#[test]
fn rtl8169_init_out_of_memory() {
    reset_platform();
    let dev = rtl8169_device();
    let mut d = Rtl8169Driver::new(0x2000, 5, RealtekSeries::Rtl8169).unwrap();
    fail_allocations_from(5);
    assert_eq!(d.init::<Kernel, _>(&dev), Err(DevError::NoMemory));
}

#[test]
fn rtl8169_transmit_and_receive() {
    reset_platform();
    let dev = rtl8169_device();
    let mut d = Rtl8169Driver::new(0x2000, 5, RealtekSeries::Rtl8169).unwrap();
    d.init::<Kernel, _>(&dev).unwrap();
    // Transmit: the descriptor goes to the NIC with the padded length
    assert_eq!(d.transmit(&dev, &[9u8; 20]), Ok(()));
    assert_eq!(dev.read_mem32(d.tx_desc(0)), DESC_OWN | DESC_FS | DESC_LS | DESC_EOR | 60);
    assert_eq!(dev.written(r69::TPPOLL), vec![0x40]);
    assert_eq!(d.transmit(&dev, &[9u8; 200]), Ok(()));
    assert_eq!(dev.read_mem32(d.tx_desc(1)), DESC_OWN | DESC_FS | DESC_LS | 200);
    assert_eq!(d.transmit(&dev, &[0u8; 2049]), Err(DevError::InvalidParam));
    // A descriptor the NIC still owns
    dev.write_mem32(d.tx_desc(2), DESC_OWN);
    assert!(!d.can_transmit(&|a: usize| dev.read_mem32(a)));
    assert_eq!(d.transmit(&dev, &[1u8; 20]), Err(DevError::Again));
    // Receive: nothing yet
    assert_eq!(d.receive::<Kernel, _>(&dev).err(), Some(DevError::Again));
    // The NIC fills descriptor 0 with a 100-byte frame
    let buf0 = dev.read_mem32(d.rx_desc(0) + 8) as usize - PHYS_OFFSET;
    let frame: Vec<u8> = (0..100u8).collect();
    dev.put(buf0, &frame);
    dev.write_mem32(d.rx_desc(0), DESC_FS | DESC_LS | 100);
    assert!(d.can_receive(&|a: usize| dev.read_mem32(a)));
    let b = d.receive::<Kernel, _>(&dev).unwrap();
    assert_eq!(b.len, 100);
    assert_eq!(dev.get(b.vaddr, 100), frame);
    assert_eq!(dev.read_mem32(d.rx_desc(0)), DESC_OWN | 2048);
    // An erroneous frame in descriptor 1 is dropped
    dev.write_mem32(d.rx_desc(1), DESC_RX_RES | 100);
    assert_eq!(d.receive::<Kernel, _>(&dev).err(), Some(DevError::Io));
    assert_eq!(dev.read_mem32(d.rx_desc(1)), DESC_OWN | 2048);
    // Descriptor 2 is next
    dev.write_mem32(d.rx_desc(2), 64);
    fail_allocations_from(0);
    assert_eq!(d.receive::<Kernel, _>(&dev).err(), Some(DevError::NoMemory));
    assert_eq!(dev.read_mem32(d.rx_desc(2)), 64);
    assert_eq!(d.recycle_rx_buffer::<Kernel>(b.vaddr, b.len), Ok(()));
    assert_eq!(freed(), vec![(b.vaddr, 1)]);
    assert_eq!(d.alloc_tx_buffer::<Kernel>(4096), Err(DevError::InvalidParam));
}

// ---- The unified driver ----

#[test]
fn create_driver_by_series() {
    reset_platform();
    let dev = rtl8139_device();
    let nic = create_driver::<Kernel, _>(0x10ec, 0x8139, 0x1000, 9, &dev).unwrap();
    assert!(matches!(nic, RealtekDriverNic::Rtl8139(_)));
    assert_eq!(nic.device_name(), "rtl8139");
    assert_eq!(nic.rx_queue_size(), 1);
    assert_eq!(nic.tx_queue_size(), 4);
    assert_eq!(nic.mac_address(), EthernetAddress([0x12, 0x34, 0x56, 0x78, 0x9a, 0xbc]));
    assert!(nic.is_ready());
    assert!(nic.can_transmit(&|a: usize| dev.read_mem32(a)));
    assert!(nic.can_receive(&|a: usize| dev.read_mem32(a)));

    let dev = rtl8169_device();
    let mut nic = create_driver::<Kernel, _>(0x10ec, 0x8161, 0x2000, 10, &dev).unwrap();
    assert!(matches!(nic, RealtekDriverNic::Rtl8169(_)));
    assert_eq!(nic.device_name(), "rtl8168");
    assert_eq!(nic.rx_queue_size(), 128);
    assert_eq!(nic.tx_queue_size(), 128);
    assert!(nic.is_ready());
    assert_eq!(nic.transmit::<Kernel, _>(&dev, &[1u8; 60], 0, 60), Ok(()));
    assert_eq!(nic.receive::<Kernel, _>(&dev).err(), Some(DevError::Again));
    assert_eq!(nic.recycle_tx_buffers(), Ok(()));
    assert_eq!(nic.alloc_tx_buffer::<Kernel>(3000), Err(DevError::InvalidParam));
}

#[test]
fn create_driver_unknown_device() {
    reset_platform();
    let dev = rtl8139_device();
    assert_eq!(
        create_driver::<Kernel, _>(0x10ec, 0x1234, 0x1000, 9, &dev).err(),
        Some(DevError::InvalidParam)
    );
    assert_eq!(
        create_driver::<Kernel, _>(0x8086, 0x8168, 0x1000, 9, &dev).err(),
        Some(DevError::InvalidParam)
    );
}

#[test]
fn create_driver_failed_init() {
    reset_platform();
    let dev = Device::new(vec![]);
    assert_eq!(
        create_driver::<Kernel, _>(0x10ec, 0x8168, 0x2000, 10, &dev).err(),
        Some(DevError::BadState)
    );
}

#[test]
fn create_driver_failed_init_releases_the_device() {
    reset_platform();
    // RTL8139: the reset completes, the third allocation fails
    let dev = rtl8139_device();
    fail_allocations_from(2);
    assert_eq!(
        create_driver::<Kernel, _>(0x10ec, 0x8139, 0x2000, 10, &dev).err(),
        Some(DevError::NoMemory)
    );
    // The device is disabled and the two buffers had are given back
    assert_eq!(dev.writes.borrow().last(), Some(&(r39::CR, 0)));
    assert_eq!(freed().len(), 2);
    // Gigabit: a ring allocated, the second fails; the first is given back
    reset_platform();
    let dev = rtl8169_device();
    fail_allocations_from(1);
    assert_eq!(
        create_driver::<Kernel, _>(0x10ec, 0x8168, 0x2000, 10, &dev).err(),
        Some(DevError::NoMemory)
    );
    assert_eq!(freed().len(), 1);
}

#[test]
fn rtl8139_init_write_order() {
    reset_platform();
    let dev = rtl8139_device();
    let mut d = Rtl8139Driver::new(0x1000, 11).unwrap();
    assert_eq!(d.init::<Kernel, _>(&dev), Ok(()));
    let w = dev.writes.borrow().clone();
    let rx = 0x10_0000 + PHYS_OFFSET;
    let tx = |k: usize| (0x10_0000 + 4 * 4096 + k * 2 * 4096 + PHYS_OFFSET) as u32;
    assert_eq!(
        w,
        vec![
            (r39::CONFIG1, 0),
            (r39::CR, r39::CR_RST as u32),
            (r39::CR, 0x0c),
            (r39::TCR, 0x0300_0600),
            (r39::RCR, 0x0f8f),
            (r39::TSAD0, tx(0)),
            (r39::TSAD0 + 4, tx(1)),
            (r39::TSAD0 + 8, tx(2)),
            (r39::TSAD0 + 12, tx(3)),
            (r39::RBSTART, rx as u32),
            (r39::MPC, 0),
            (r39::IMR, 0x1f),
        ]
    );
}

#[test]
fn rtl8139_setup_write_sequence() {
    reset_platform();
    let dev = rtl8139_device();
    let mut d = Rtl8139Driver::new(0x1000, 11).unwrap();
    d.init::<Kernel, _>(&dev).unwrap();
    let w = d.setup_writes(0xff);
    let tx0 = (0x10_0000 + 4 * 4096 + PHYS_OFFSET) as u32;
    assert_eq!(
        w,
        vec![
            IoWrite::Byte(r39::CR, 0xef),
            IoWrite::Word(r39::TCR, 0x0300_0600),
            IoWrite::Word(r39::RCR, 0x0f8f),
            IoWrite::Word(r39::TSAD0, tx0),
            IoWrite::Word(r39::TSAD1, tx0 + 2 * 4096),
            IoWrite::Word(r39::TSAD2, tx0 + 4 * 4096),
            IoWrite::Word(r39::TSAD3, tx0 + 6 * 4096),
            IoWrite::Word(r39::RBSTART, (0x10_0000 + PHYS_OFFSET) as u32),
            IoWrite::Word(r39::MPC, 0),
            IoWrite::Half(r39::IMR, 0x1f),
        ]
    );
}

#[test]
fn rtl8169_setup_write_sequence() {
    let w = Rtl8169Driver::setup_writes(0x1_0000_2000, 0x3000);
    assert_eq!(w.len(), 14);
    assert_eq!(w[0], IoWrite::Word(r69::RCR, 0xe70f));
    assert_eq!(w[1], IoWrite::Byte(r69::CMD, 0x04));
    assert_eq!(w[2], IoWrite::Word(r69::TCR, 0x0300_0700));
    assert_eq!(w[3], IoWrite::Half(r69::RMS, 2048));
    assert_eq!(w[4], IoWrite::Byte(r69::ETTHR, 0x3b));
    assert_eq!(w[5], IoWrite::Word(r69::RDSAR_LO, 0x2000));
    assert_eq!(w[6], IoWrite::Word(r69::RDSAR_HI, 1));
    assert_eq!(w[7], IoWrite::Word(r69::TNPDS_LO, 0x3000));
    assert_eq!(w[8], IoWrite::Word(r69::TNPDS_HI, 0));
    assert_eq!(w[9], IoWrite::Half(r69::IMR, 0x2f));
    assert_eq!(w[10], IoWrite::Byte(r69::CMD, 0x0c));
    assert_eq!(w[11], IoWrite::Word(r69::MAR0, 0xffff_ffff));
    assert_eq!(w[12], IoWrite::Word(r69::MAR4, 0xffff_ffff));
    assert_eq!(w[13], IoWrite::Byte(r69::CFG_9346, 0x00));
}

#[test]
fn realtek_release_frees_everything() {
    reset_platform();
    let dev = rtl8169_device();
    let nic = create_driver::<Kernel, _>(0x10ec, 0x8169, 0x2000, 10, &dev).unwrap();
    nic.release::<Kernel, _>(&dev);
    // Two rings and 128 + 128 buffers
    assert_eq!(freed().len(), 2 + 256);
    reset_platform();
    let dev = rtl8139_device();
    let nic = create_driver::<Kernel, _>(0x10ec, 0x8139, 0x1000, 9, &dev).unwrap();
    nic.release::<Kernel, _>(&dev);
    assert_eq!(freed().len(), 5);
    assert_eq!(dev.written(r39::CR).last(), Some(&0));
}

#[test]
fn rtl8139_receive_header_outcome() {
    assert_eq!(Rtl8139Driver::rx_header_outcome(0x0044_0001), Ok(64));
    assert_eq!(Rtl8139Driver::rx_header_outcome(0x05f2_0001), Ok(1518));
    assert_eq!(Rtl8139Driver::rx_header_outcome(0x05f3_0001), Err(DevError::BadState));
    assert_eq!(Rtl8139Driver::rx_header_outcome(0x003f_0001), Err(DevError::BadState));
    assert_eq!(Rtl8139Driver::rx_header_outcome(0x0044_0000), Err(DevError::Again));
    assert_eq!(Rtl8139Driver::rx_header_outcome(0x0044_fffe), Err(DevError::Again));
}

#[test]
fn rtl8169_receive_descriptor_outcome() {
    assert_eq!(Rtl8169Driver::rx_descriptor_outcome(DESC_OWN | 100), Err(DevError::Again));
    assert_eq!(Rtl8169Driver::rx_descriptor_outcome(DESC_RX_RES | 100), Err(DevError::Io));
    assert_eq!(Rtl8169Driver::rx_descriptor_outcome(DESC_OWN | DESC_RX_RES | 100), Err(DevError::Again));
    assert_eq!(Rtl8169Driver::rx_descriptor_outcome(DESC_FS | DESC_LS | 100), Ok(100));
    assert_eq!(Rtl8169Driver::rx_descriptor_outcome(0x7fff), Ok(0x3fff));
}

#[test]
fn dma_buffer_array_default_is_empty() {
    let a: DmaBufferArray<3> = Default::default();
    assert!(a.get(0).is_none());
    assert!(a.get(2).is_none());
    assert_eq!(a.vaddr(1), 0);
}

#[test]
fn rtl8139_second_shutdown_frees_nothing() {
    reset_platform();
    let dev = rtl8139_device();
    let mut d = Rtl8139Driver::new(0x1000, 11).unwrap();
    d.init::<Kernel, _>(&dev).unwrap();
    d.shutdown::<Kernel, _>(&dev);
    assert_eq!(freed().len(), 5);
    d.shutdown::<Kernel, _>(&dev);
    assert_eq!(freed().len(), 5);
    assert_eq!(d.setup_writes(0)[7], IoWrite::Word(r39::RBSTART, 0));
}

#[test]
fn reset_wait_lengths() {
    reset_platform();
    // RTL8139: 100us between polls
    let dev = Device::new(vec![]);
    let mut d = Rtl8139Driver::new(0x1000, 11).unwrap();
    assert_eq!(d.init::<Kernel, _>(&dev), Err(DevError::BadState));
    let w = WAIT_LENGTHS.lock().unwrap().clone();
    assert_eq!(w.len(), 1000);
    assert!(w.iter().all(|d| *d == core::time::Duration::from_micros(100)));
    // The common reset: 10us between polls
    reset_platform();
    let mut m = MmioOps::new(0);
    let stuck = Device::new(vec![]);
    assert_eq!(RealtekCommon::software_reset::<Kernel, _>(&stuck, &mut m, &mut CallNo::first(), 0x37, 0x10, 1), Err(DevError::BadState));
    let w = WAIT_LENGTHS.lock().unwrap().clone();
    assert_eq!(w.len(), 100);
    assert!(w.iter().all(|d| d.as_micros() == 10));
}

#[test]
fn rtl8169_reset_timeout_waits() {
    reset_platform();
    // A chip that never clears the reset bit: 10 s of 10us waits, one after
    // each poll, and nothing allocated
    let stuck = Device::new(vec![]);
    let mut d = Rtl8169Driver::new(0x2000, 5, RealtekSeries::Rtl8169).unwrap();
    assert_eq!(d.init::<Kernel, _>(&stuck), Err(DevError::BadState));
    let w = WAIT_LENGTHS.lock().unwrap().clone();
    assert_eq!(w.len(), 1_000_000);
    assert!(w.iter().all(|d| d.as_micros() == 10));
    assert_eq!(*ALLOCS.lock().unwrap(), 0);
    assert_eq!(stuck.written(r69::CMD), vec![0x10]);
}

#[test]
fn rtl8139_init_allocates_each_buffer_once() {
    reset_platform();
    let dev = rtl8139_device();
    let mut d = Rtl8139Driver::new(0x1000, 11).unwrap();
    d.init::<Kernel, _>(&dev).unwrap();
    // One allocation per buffer: the receive ring and four distinct transmit buffers
    assert_eq!(*ALLOCS.lock().unwrap(), 5);
    let mut addrs: Vec<u32> = (0..4).map(|i| dev.written(r39::TSAD0 + 4 * i)[0]).collect();
    addrs.push(dev.written(r39::RBSTART)[0]);
    let mut unique = addrs.clone();
    unique.sort();
    unique.dedup();
    assert_eq!(unique.len(), 5);
}
