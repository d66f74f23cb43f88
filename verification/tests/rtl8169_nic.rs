use std::cell::{Cell, RefCell};

use axdriver_net::rtl8169::desc::desc_status::{EOR, FS, LS, OWN};
use axdriver_net::rtl8169::desc::rx_status::{RX_CRC, RX_RES};
use axdriver_net::rtl8169::phy::{LinkSpeed, LinkStatus};
use axdriver_net::rtl8169::{KernelFunc, PhyManager, Reg, RegWrite, Rtl8169Nic, Rtl8169Regs, RxDesc, TxDesc};
use axdriver_net::calls::CallNo;
use axdriver_net::{DevError, EthernetAddress};

const PHYS_OFFSET: usize = 0x8000_0000;

struct Kernel;

impl KernelFunc for Kernel {
    fn virt_to_phys(addr: usize) -> usize {
        addr + PHYS_OFFSET
    }
    fn dma_alloc_coherent(pages: usize, _call: &CallNo) -> (usize, usize) {
        (0x1000 * pages, 0x1000 * pages + PHYS_OFFSET)
    }
    fn dma_free_coherent(_vaddr: usize, _pages: usize, _call: &CallNo) {}
}

/// A packet buffer: an identifier and the address of its memory.
#[derive(Debug, Clone, Copy, PartialEq, Eq)]
struct Buf(u32, usize);

type Nic = Rtl8169Nic<Buf>;

/// Registers keyed by offset, with a log of writes.
struct Regs {
    values: RefCell<Vec<(u32, u32)>>,
    writes: RefCell<Vec<(Reg, u32)>>,
}

impl Regs {
    fn new() -> Self {
        Regs { values: RefCell::new(Vec::new()), writes: RefCell::new(Vec::new()) }
    }
    fn set(&self, reg: Reg, v: u32) {
        let off = reg.offset();
        let mut vals = self.values.borrow_mut();
        vals.retain(|(o, _)| *o != off);
        vals.push((off, v));
    }
    fn get(&self, reg: Reg) -> u32 {
        let off = reg.offset();
        self.values.borrow().iter().find(|(o, _)| *o == off).map(|(_, v)| *v).unwrap_or(0)
    }
    fn write(&self, reg: Reg, v: u32) {
        self.writes.borrow_mut().push((reg, v));
        self.set(reg, v);
    }
}

fn rx_ring_with_buffers() -> (Vec<RxDesc>, Vec<Option<Buf>>) {
    let mut ring = vec![RxDesc::new(); 16];
    let next = Cell::new(0u32);
    let bufs = Nic::init_rx_ring::<Kernel, _, _>(
        &mut ring,
        &|| {
            let n = next.get();
            next.set(n + 1);
            Some(Buf(n, 0x10_0000 + 0x1000 * n as usize))
        },
        &|b: &Buf| b.1,
    )
    .unwrap();
    (ring, bufs)
}

// ---- Descriptors ----

#[test]
fn tx_descriptor_setup_and_clear() {
    let mut d = TxDesc::new();
    assert!(!d.is_owned());
    d.setup_tx(0x1234_0000, 100, false);
    assert_eq!(d.status, OWN | FS | LS | 100);
    assert_eq!((d.vlan_tag, d.buf_addr_low, d.buf_addr_high), (0, 0x1234_0000, 0));
    assert!(d.is_owned());
    d.setup_tx(0x1234_0000, 0x1_0005, true);
    assert_eq!(d.status, OWN | FS | LS | EOR | 5);
    d.clear();
    assert_eq!(d, TxDesc::new());
    assert!(!d.is_owned());
}

#[test]
fn rx_descriptor_lengths() {
    let mut d = RxDesc::new();
    d.setup_rx(0x2000, 2048, true);
    assert_eq!(d.status, OWN | EOR | 2048);
    assert!(d.is_owned());
    assert_eq!(d.get_rx_length(), None);
    d.status = FS | LS | 68;
    assert_eq!(d.get_rx_length(), Some(64));
    d.status = FS | LS | 4;
    assert_eq!(d.get_rx_length(), Some(0));
    d.status = 3;
    assert_eq!(d.get_rx_length(), None);
    d.status = RX_CRC | 68;
    assert_eq!(d.get_rx_length(), None);
    d.status = RX_RES | 68;
    assert_eq!(d.get_rx_length(), None);
    // Only the low 13 bits hold the length
    d.status = 0x4000 | 0x1FFF;
    assert_eq!(d.get_rx_length(), Some(0x1FFF - 4));
    d.clear();
    assert_eq!(d, RxDesc::new());
}

// ---- Identification and configuration ----

#[test]
fn chip_identification() {
    assert_eq!(Nic::chip_version(0x5400_0000), 0x54);
    assert_eq!(Nic::chip_version(0x3c80_0000), 0x3e);
    assert_eq!(Nic::chip_version(0x0080_0000), 0x02);
    assert_eq!(Nic::chip_index(0x54), 14);
    assert_eq!(Nic::chip_index(0x04), 1);
    assert_eq!(Nic::chip_index(0x00), 0);
    assert_eq!(Nic::chip_index(0x7f), 0);
    assert_eq!(Nic::mac_from_regs(0x6857_4c00, 0x0201), [0x00, 0x4c, 0x57, 0x68, 0x01, 0x02]);
}

#[test]
fn reset_and_identify_reads_chip_and_mac() {
    let regs = Regs::new();
    let window = Rtl8169Regs::new(0x3000);
    regs.set(Reg::TxConfig, 0x5400_0000);
    regs.set(Reg::Mac0, 0x6857_4c00);
    regs.set(Reg::Mac4, 0x0201);
    // The chip clears the reset bit at once
    let r = Nic::reset_and_identify(
        &window,
        &|_: &Rtl8169Regs, g: Reg| (regs.get(g) & !0x10) as u8,
        &|_: &Rtl8169Regs, g: Reg| regs.get(g) as u16,
        &|_: &Rtl8169Regs, g: Reg| regs.get(g),
        &|_: &Rtl8169Regs, g: Reg, v: u8| regs.write(g, v as u32),
    );
    assert_eq!(r, Ok((14, [0x00, 0x4c, 0x57, 0x68, 0x01, 0x02])));
    assert_eq!(regs.writes.borrow()[0], (Reg::ChipCmd, 0x10));
}

#[test]
fn reset_and_identify_timeout() {
    let polls = Cell::new(0);
    let window = Rtl8169Regs::new(0x3000);
    let r = Nic::reset_and_identify(
        &window,
        &|_: &Rtl8169Regs, _g: Reg| {
            polls.set(polls.get() + 1);
            0x10u8
        },
        &|_: &Rtl8169Regs, _g: Reg| 0u16,
        &|_: &Rtl8169Regs, _g: Reg| 0u32,
        &|_: &Rtl8169Regs, _g: Reg, _v: u8| {},
    );
    assert_eq!(r, Err(DevError::BadState));
    assert_eq!(polls.get(), 1000);
}

#[test]
fn configuration_values() {
    assert_eq!(Nic::tx_config_value(), 0x0300_0600);
    assert_eq!(Nic::rx_config_value(0, 0), 0);
    assert_eq!(Nic::rx_config_value(0, 0xffff_ffff), !0xff7e_1880u32);
    assert_eq!(Nic::rx_config_value(14, 0x0000_e70e), 0x0000_e70e & !0xff7e_1880u32);
    assert_eq!(Nic::ring_pages(4), 1);
    assert_eq!(Nic::ring_pages(256), 1);
    assert_eq!(Nic::ring_pages(257), 2);
    assert_eq!(Nic::ring_pages(0), 0);
}

fn configuration_writes_for(chip_idx: usize) -> Vec<(Reg, u32)> {
    let regs = Regs::new();
    let window = Rtl8169Regs::new(0x3000);
    regs.set(Reg::RxConfig, 0xffff_ffff);
    let r = Nic::configure_hardware(
        &window,
        &|_: &Rtl8169Regs, g: Reg| regs.get(g),
        &|_: &Rtl8169Regs, g: Reg, v: u8| regs.write(g, v as u32),
        &|_: &Rtl8169Regs, g: Reg, v: u16| regs.write(g, v as u32),
        &|_: &Rtl8169Regs, g: Reg, v: u32| regs.write(g, v),
        0x1_2345_6000,
        0x7000,
        chip_idx,
    );
    assert_eq!(r, Ok(()));
    let w = regs.writes.borrow().clone();
    w
}

#[test]
fn configure_hardware_write_order() {
    let rx_cfg = !0xff7e_1880u32;
    let early = configuration_writes_for(0);
    assert_eq!(
        early,
        vec![
            (Reg::Cfg9346, 0xc0),
            (Reg::TxDescStartAddrLow, 0x2345_6000),
            (Reg::TxDescStartAddrHigh, 0),
            (Reg::RxDescStartAddrLow, 0x7000),
            (Reg::RxDescStartAddrHigh, 0),
            (Reg::EarlyTxThres, 0x3f),
            (Reg::RxMaxSize, 0x0800),
            (Reg::RxConfig, rx_cfg),
            (Reg::TxConfig, 0x0300_0600),
            (Reg::RxMissed, 0),
            (Reg::ChipCmd, 0x0c),
            (Reg::Cfg9346, 0x00),
            (Reg::IntrMask, 0),
            (Reg::IntrStatus, 0xffff),
        ]
    );
    let late = configuration_writes_for(6);
    assert_eq!(late.len(), 14);
    assert_eq!(late[10], (Reg::Cfg9346, 0x00));
    assert_eq!(late[13], (Reg::ChipCmd, 0x0c));
    assert_eq!(configuration_writes_for(5)[10], (Reg::ChipCmd, 0x0c));
}

#[test]
fn dma_allocation_checks() {
    assert_eq!(Nic::check_dma_allocation(0, 0x1000), Err(DevError::NoMemory));
    assert_eq!(Nic::check_dma_allocation(0x1000, 0), Err(DevError::NoMemory));
    assert_eq!(Nic::check_dma_allocation(0x1000, 0x2000), Ok((0x1000, 0x2000)));
    assert_eq!(Nic::alloc_dma_pages::<Kernel>(2, &mut CallNo::first()), Ok((0x2000, 0x2000 + PHYS_OFFSET)));
    assert_eq!(Nic::virt_to_phys::<Kernel>(0x10), 0x10 + PHYS_OFFSET);
}

// ---- Rings ----

#[test]
fn tx_ring_initialization() {
    let mut ring = vec![TxDesc { status: OWN, vlan_tag: 1, buf_addr_low: 2, buf_addr_high: 3 }; 4];
    Nic::init_tx_ring(&mut ring);
    assert!(ring.iter().all(|d| *d == TxDesc::new()));
}

#[test]
fn rx_ring_initialization() {
    let (ring, bufs) = rx_ring_with_buffers();
    assert_eq!(bufs.len(), 16);
    for i in 0..16 {
        let b = bufs[i].unwrap();
        assert_eq!(b.0, i as u32);
        assert_eq!(ring[i].buf_addr_low as usize, b.1 + PHYS_OFFSET);
        let eor = if i == 15 { EOR } else { 0 };
        assert_eq!(ring[i].status, OWN | eor | 2048);
    }
}

#[test]
fn rx_ring_initialization_out_of_memory() {
    let mut ring = vec![RxDesc::new(); 16];
    let n = Cell::new(0usize);
    let r = Nic::init_rx_ring::<Kernel, _, _>(
        &mut ring,
        &|| {
            n.set(n.get() + 1);
            if n.get() > 3 { None } else { Some(Buf(0, 0x1000)) }
        },
        &|b: &Buf| b.1,
    );
    assert_eq!(r.err(), Some(DevError::NoMemory));
}

fn new_nic() -> (Nic, Vec<RxDesc>) {
    let (ring, bufs) = rx_ring_with_buffers();
    let nic = Nic::new(0x3000, Rtl8169Regs::new(0x3000), 14, [2, 0, 0, 0, 0, 1], 0x9000, 1, 0xa000, 1, bufs, true);
    (nic, ring)
}

#[test]
fn nic_identity() {
    let (nic, _) = new_nic();
    assert_eq!(nic.mac_address(), EthernetAddress([2, 0, 0, 0, 0, 1]));
    assert_eq!(nic.device_name(), "rtl8169");
    assert_eq!(nic.rx_queue_size(), 16);
    assert_eq!(nic.tx_queue_size(), 4);
    assert_eq!(nic.ring_allocations(), ((0x9000, 1), (0xa000, 1)));
}

#[test]
fn transmit_fills_and_reclaims_the_ring() {
    let (mut nic, _) = new_nic();
    let mut tx = vec![TxDesc::new(); 4];
    assert!(nic.can_transmit(&tx));
    assert_eq!(nic.transmit::<Kernel>(&mut tx, Buf(100, 0x5000), 60, 0x5000), Ok(0));
    assert_eq!(tx[0].status, OWN | FS | LS | 60);
    assert_eq!(tx[0].buf_addr_low as usize, 0x5000 + PHYS_OFFSET);
    assert_eq!(nic.transmit::<Kernel>(&mut tx, Buf(101, 0x6000), 1514, 0x6000), Ok(1));
    assert_eq!(nic.transmit::<Kernel>(&mut tx, Buf(102, 0x7000), 0, 0x7000), Err(DevError::InvalidParam));
    assert_eq!(nic.transmit::<Kernel>(&mut tx, Buf(102, 0x7000), 2049, 0x7000), Err(DevError::InvalidParam));
    assert_eq!(nic.transmit::<Kernel>(&mut tx, Buf(102, 0x7000), 100, 0x7000), Ok(2));
    // One slot stays free: the ring is full with three frames in flight
    assert!(!nic.can_transmit(&tx));
    assert_eq!(nic.transmit::<Kernel>(&mut tx, Buf(103, 0x8000), 100, 0x8000), Err(DevError::Again));
    // The NIC sends the first frame: its descriptor is reclaimed and reused
    tx[0].status &= !OWN;
    assert_eq!(nic.transmit::<Kernel>(&mut tx, Buf(103, 0x8000), 100, 0x8000), Ok(3));
    assert_eq!(tx[3].status, OWN | FS | LS | EOR | 100);
    assert_eq!(nic.recycle_tx_buffers(&tx), Ok(()));
    assert!(!nic.can_transmit(&tx));
    // All sent
    for d in tx.iter_mut() {
        d.status &= !OWN;
    }
    assert_eq!(nic.recycle_tx_buffers(&tx), Ok(()));
    assert!(nic.can_transmit(&tx));
    assert_eq!(nic.transmit::<Kernel>(&mut tx, Buf(104, 0x9000), 100, 0x9000), Ok(0));
}

#[test]
fn transmit_timeout() {
    assert!(!Nic::tx_timed_out(1000, 7000));
    assert!(Nic::tx_timed_out(1000, 7001));
    assert!(!Nic::tx_timed_out(usize::MAX, 100));
}

#[test]
fn receive_frames() {
    let (mut nic, mut rx) = new_nic();
    assert!(!nic.can_receive(&rx));
    assert!(matches!(nic.receive::<Kernel>(&mut rx, Some((Buf(50, 0x50_0000), 0x50_0000))), Err(DevError::Again)));
    // The NIC fills descriptor 0 with a 64-byte frame (68 with CRC)
    rx[0].status = FS | LS | 68;
    assert!(nic.can_receive(&rx));
    let done = match nic.receive::<Kernel>(&mut rx, Some((Buf(50, 0x50_0000), 0x50_0000))) {
        Ok(d) => d,
        Err(e) => panic!("{:?}", e),
    };
    assert_eq!(done.buf, Buf(0, 0x10_0000));
    assert_eq!(done.len, 64);
    assert_eq!(rx[0].status, OWN | 2048);
    assert_eq!(rx[0].buf_addr_low as usize, 0x50_0000 + PHYS_OFFSET);
    // An erroneous frame in descriptor 1
    rx[1].status = RX_CRC | 68;
    assert!(matches!(nic.receive::<Kernel>(&mut rx, None), Err(DevError::Io)));
    // An empty frame
    rx[1].status = 4;
    assert!(matches!(nic.receive::<Kernel>(&mut rx, None), Err(DevError::Again)));
    // No new buffer: the frame is dropped and the descriptor left without one
    rx[1].status = 100;
    assert!(matches!(nic.receive::<Kernel>(&mut rx, None), Err(DevError::NoMemory)));
    assert_eq!(rx[1].status, 100);
    assert!(matches!(
        nic.receive::<Kernel>(&mut rx, Some((Buf(51, 0x51_0000), 0x51_0000))),
        Err(DevError::BadState)
    ));
}

#[test]
fn receive_wraps_around_the_ring() {
    let (mut nic, mut rx) = new_nic();
    for i in 0..17u32 {
        let idx = (i % 16) as usize;
        rx[idx].status = 100 + 4;
        let d = match nic.receive::<Kernel>(&mut rx, Some((Buf(100 + i, 0x60_0000), 0x60_0000))) {
            Ok(d) => d,
            Err(e) => panic!("{:?}", e),
        };
        assert_eq!(d.len, 100);
        let eor = if idx == 15 { EOR } else { 0 };
        assert_eq!(rx[idx].status, OWN | eor | 2048);
    }
}

// ---- PHY ----

#[test]
fn phy_commands() {
    assert_eq!(PhyManager::read_cmd(1), 0x0001_0000);
    assert_eq!(PhyManager::write_cmd(4, 0x01e1), 0x8004_01e1);
    assert_eq!(PhyManager::advertisement(0x0001), 0x01e1);
    assert_eq!(PhyManager::advertisement(0xffff), 0x01ff);
}

#[test]
fn phy_link_status() {
    assert_eq!(PhyManager::link_status(0x00), LinkStatus::Down);
    assert_eq!(PhyManager::link_status(0x01), LinkStatus::Down);
    assert_eq!(PhyManager::link_status(0x02 | 0x10 | 0x01), LinkStatus::Up(LinkSpeed::Mbps1000, true));
    assert_eq!(PhyManager::link_status(0x02 | 0x08), LinkStatus::Up(LinkSpeed::Mbps100, false));
    assert_eq!(PhyManager::link_status(0x02 | 0x04 | 0x01), LinkStatus::Up(LinkSpeed::Mbps10, true));
    assert_eq!(PhyManager::link_status(0x02), LinkStatus::Up(LinkSpeed::Unknown, false));
    let window = Rtl8169Regs::new(0x3000);
    let phy = PhyManager::new(&window);
    assert!(phy.is_link_up(&|_: &Rtl8169Regs, _g: Reg| 0x02u8));
    assert!(!phy.is_link_up(&|_: &Rtl8169Regs, _g: Reg| 0x1du8));
}

#[test]
fn phy_mdio_access() {
    let window = Rtl8169Regs::new(0x3000);
    let phy = PhyManager::new(&window);
    let phyar = Cell::new(0u32);
    let spins = Cell::new(0usize);
    // A PHY that answers at once
    let v = phy.mdio_read(
        4,
        &|_: &Rtl8169Regs, _g: Reg| 0x8000_0000 | 0x0005_01e1,
        &|_: &Rtl8169Regs, _g: Reg, x: u32| phyar.set(x),
        &|| spins.set(spins.get() + 1),
    );
    assert_eq!(v, 0x01e1);
    assert_eq!(phyar.get(), 0x0004_0000);
    assert_eq!(spins.get(), 0);
    // A PHY that never answers
    let v = phy.mdio_read(
        4,
        &|_: &Rtl8169Regs, _g: Reg| 0u32,
        &|_: &Rtl8169Regs, _g: Reg, x: u32| phyar.set(x),
        &|| spins.set(spins.get() + 1),
    );
    assert_eq!(v, 0xffff);
    assert_eq!(spins.get(), 2000 * 100);
    // A write completes when the flag is cleared
    spins.set(0);
    phy.mdio_write(
        9,
        0x0200,
        &|_: &Rtl8169Regs, _g: Reg| 0u32,
        &|_: &Rtl8169Regs, _g: Reg, x: u32| phyar.set(x),
        &|| spins.set(spins.get() + 1),
    );
    assert_eq!(phyar.get(), 0x8009_0200);
    assert_eq!(spins.get(), 0);
}

#[test]
fn phy_mdio_read_takes_first_flagged_value() {
    let window = Rtl8169Regs::new(0x3000);
    let phy = PhyManager::new(&window);
    let reads = Cell::new(0usize);
    // Unflagged, then flagged 0x1234, then flagged 0x5678
    let read32 = |_: &Rtl8169Regs, _g: Reg| {
        let n = reads.get();
        reads.set(n + 1);
        match n {
            0 => 0x0000_1111u32,
            1 => 0x8000_1234u32,
            _ => 0x8000_5678u32,
        }
    };
    let v = phy.mdio_read(1, &read32, &|_: &Rtl8169Regs, _g: Reg, _x: u32| {}, &|| {});
    assert_eq!(v, 0x1234);
    assert_eq!(reads.get(), 2);
    // A silent PHY is polled exactly 2000 times before 0xFFFF
    reads.set(0);
    let silent = |_: &Rtl8169Regs, _g: Reg| {
        reads.set(reads.get() + 1);
        0x0000_abcdu32
    };
    let v = phy.mdio_read(1, &silent, &|_: &Rtl8169Regs, _g: Reg, _x: u32| {}, &|| {});
    assert_eq!(v, 0xffff);
    assert_eq!(reads.get(), 2000);
}

#[test]
fn phy_auto_negotiation() {
    let window = Rtl8169Regs::new(0x3000);
    let phy = PhyManager::new(&window);
    let log = RefCell::new(Vec::new());
    let last = Cell::new(0u32);
    // The PHY: every register reads 0x0021 (selector 1, negotiation complete)
    let read32 = |_: &Rtl8169Regs, _g: Reg| {
        if last.get() & 0x8000_0000 != 0 { 0 } else { 0x8000_0000 | 0x0021 }
    };
    let write32 = |_: &Rtl8169Regs, _g: Reg, x: u32| {
        last.set(x);
        log.borrow_mut().push(x);
    };
    let r = phy.init_and_negotiate(&|_: &Rtl8169Regs, _g: Reg| 0x02u8, &read32, &write32, &|| {});
    assert_eq!(r, Ok(()));
    let log = log.borrow().clone();
    assert_eq!(log[0], 0x0004_0000);
    assert_eq!(log[1], 0x8004_01e1);
    assert_eq!(log[2], 0x8009_0200);
    assert_eq!(log[3], 0x8000_1200);
    assert_eq!(log[4], 0x0001_0000);
    assert_eq!(log.len(), 5);
}

#[test]
fn configuration_write_sequence() {
    let w = Nic::configuration_writes(14, 0x9000, 0xa000, 0xffff_ffff);
    assert_eq!(w.len(), 14);
    assert_eq!(w[0], RegWrite::Byte(Reg::Cfg9346, 0xc0));
    assert_eq!(w[1], RegWrite::Word(Reg::TxDescStartAddrLow, 0x9000));
    assert_eq!(w[3], RegWrite::Word(Reg::RxDescStartAddrLow, 0xa000));
    assert_eq!(w[5], RegWrite::Byte(Reg::EarlyTxThres, 0x3f));
    assert_eq!(w[6], RegWrite::Half(Reg::RxMaxSize, 0x0800));
    assert_eq!(w[7], RegWrite::Word(Reg::RxConfig, !0xff7e_1880u32));
    assert_eq!(w[8], RegWrite::Word(Reg::TxConfig, 0x0300_0600));
    assert_eq!(w[10], RegWrite::Byte(Reg::Cfg9346, 0x00));
    assert_eq!(w[11], RegWrite::Half(Reg::IntrMask, 0));
    assert_eq!(w[12], RegWrite::Half(Reg::IntrStatus, 0xffff));
    assert_eq!(w[13], RegWrite::Byte(Reg::ChipCmd, 0x0c));
    let early = Nic::configuration_writes(2, 0x9000, 0xa000, 0);
    assert_eq!(early[10], RegWrite::Byte(Reg::ChipCmd, 0x0c));
    assert_eq!(early[11], RegWrite::Byte(Reg::Cfg9346, 0x00));
}

#[test]
fn set_up_rings_then_configure() {
    let regs = Regs::new();
    let window = Rtl8169Regs::new(0x3000);
    regs.set(Reg::RxConfig, 0xffff_ffff);
    let mut tx = vec![TxDesc::new(); 4];
    tx[2].status = 0x1234;
    let mut rx = vec![RxDesc::new(); 16];
    let next = Cell::new(0u32);
    let (bufs, _after) = Nic::set_up_rings_and_configure::<Kernel, _, _, _, _, _, _>(
        &window,
        &mut tx,
        &mut rx,
        0x1_2345_6000,
        0x7000,
        0,
        &|| {
            let n = next.get();
            next.set(n + 1);
            Some(Buf(n, 0x10_0000 + 0x1000 * n as usize))
        },
        &|b: &Buf| b.1,
        &|_: &Rtl8169Regs, g: Reg| regs.get(g),
        &|_: &Rtl8169Regs, g: Reg, v: u8| regs.write(g, v as u32),
        &|_: &Rtl8169Regs, g: Reg, v: u16| regs.write(g, v as u32),
        &|_: &Rtl8169Regs, g: Reg, v: u32| regs.write(g, v),
    )
    .unwrap();
    assert_eq!(bufs.len(), 16);
    assert_eq!(tx[2].status, 0);
    assert_eq!(rx[3].buf_addr_low, (0x10_3000 + PHYS_OFFSET) as u32);
    assert!(rx[15].status & EOR != 0);
    assert_eq!(regs.writes.borrow().clone(), configuration_writes_for(0));
    // No receive buffer: NoMemory before any register access
    let regs2 = Regs::new();
    let r = Nic::set_up_rings_and_configure::<Kernel, _, _, _, _, _, _>(
        &window,
        &mut tx,
        &mut rx,
        0x1_2345_6000,
        0x7000,
        0,
        &|| None,
        &|b: &Buf| b.1,
        &|_: &Rtl8169Regs, g: Reg| regs2.get(g),
        &|_: &Rtl8169Regs, g: Reg, v: u8| regs2.write(g, v as u32),
        &|_: &Rtl8169Regs, g: Reg, v: u16| regs2.write(g, v as u32),
        &|_: &Rtl8169Regs, g: Reg, v: u32| regs2.write(g, v),
    );
    assert_eq!(r.err(), Some(DevError::NoMemory));
    assert!(regs2.writes.borrow().is_empty());
}

#[test]
fn prepare_resets_identifies_and_allocates() {
    let regs = Regs::new();
    regs.set(Reg::TxConfig, 0x0000_0000);
    regs.set(Reg::Mac0, 0x4433_2211);
    regs.set(Reg::Mac4, 0x6655);
    let reads = RefCell::new(Vec::new());
    let p = Nic::prepare::<Kernel, _, _, _, _>(
        0x3000,
        &|_: &Rtl8169Regs, g: Reg| {
            reads.borrow_mut().push(g);
            regs.get(g) as u8
        },
        &|_: &Rtl8169Regs, g: Reg| {
            reads.borrow_mut().push(g);
            regs.get(g) as u16
        },
        &|_: &Rtl8169Regs, g: Reg| {
            reads.borrow_mut().push(g);
            regs.get(g)
        },
        &|_: &Rtl8169Regs, g: Reg, v: u8| {
            // The chip clears the reset bit at once
            regs.write(g, v as u32);
            regs.set(g, v as u32 & !0x10);
        },
        &mut CallNo::first(),
    )
    .ok()
    .unwrap();
    assert_eq!(p.mac, [0x11, 0x22, 0x33, 0x44, 0x55, 0x66]);
    assert_eq!(regs.writes.borrow().clone(), vec![(Reg::ChipCmd, 0x10)]);
    assert_eq!(reads.borrow().clone(), vec![Reg::ChipCmd, Reg::TxConfig, Reg::Mac0, Reg::Mac4]);
    assert_eq!(p.tx, (0x1000, 0x1000 + PHYS_OFFSET, 1));
    assert_eq!(p.rx, (0x1000, 0x1000 + PHYS_OFFSET, 1));
    // A null base address is refused before any access
    let r = Nic::prepare::<Kernel, _, _, _, _>(
        0,
        &|_: &Rtl8169Regs, _g: Reg| 0u8,
        &|_: &Rtl8169Regs, _g: Reg| 0u16,
        &|_: &Rtl8169Regs, _g: Reg| 0u32,
        &|_: &Rtl8169Regs, _g: Reg, _v: u8| {},
        &mut CallNo::first(),
    );
    assert_eq!(r.err(), Some(DevError::InvalidParam));
}

#[test]
fn phy_negotiation_then_link() {
    let window = Rtl8169Regs::new(0x3000);
    let phy = PhyManager::new(&window);
    let log = RefCell::new(Vec::new());
    let last = Cell::new(0u32);
    let read32 = |_: &Rtl8169Regs, _g: Reg| {
        if last.get() & 0x8000_0000 != 0 { 0 } else { 0x8000_0000 | 0x0021 }
    };
    let write32 = |_: &Rtl8169Regs, _g: Reg, x: u32| {
        last.set(x);
        log.borrow_mut().push(x);
    };
    let status_reads = Cell::new(0u32);
    let read8 = |_: &Rtl8169Regs, _g: Reg| {
        status_reads.set(status_reads.get() + 1);
        0x02u8
    };
    assert!(phy.negotiate_and_check_link(&read8, &read32, &write32, &|| {}));
    // The status register is read once by the negotiation, then for the link
    assert_eq!(status_reads.get(), 2);
    assert_eq!(log.borrow().clone(), vec![0x0004_0000, 0x8004_01e1, 0x8009_0200, 0x8000_1200, 0x0001_0000]);
}
