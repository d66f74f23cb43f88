use std::cell::{Cell, RefCell};

use axdriver_net::gmac::nic::{RX_BUFFER_SIZE, RX_RING_SIZE, TX_RING_SIZE};
use axdriver_net::gmac::regs::{
    DMA_BUS_MODE, DMA_OPERATION_MODE, DMA_STATUS, MAC_ADDRESS0_HIGH, MAC_ADDRESS0_LOW, MAC_CONFIGURATION,
};
use axdriver_net::gmac::{GmacNic, GmacRegs, KernelFunc, RxDesc, TxDesc};
use axdriver_net::calls::CallNo;
use axdriver_net::DevError;

struct IdentityKernel;

impl KernelFunc for IdentityKernel {
    fn virt_to_phys(addr: usize) -> usize {
        addr + 0x1000_0000
    }
    fn phys_to_virt(addr: usize) -> usize {
        addr - 0x1000_0000
    }
    fn dma_alloc_coherent(pages: usize, _call: &CallNo) -> (usize, usize) {
        (0x4000_0000 + pages, 0x5000_0000 + pages)
    }
    fn dma_free_coherent(_vaddr: usize, _pages: usize, _call: &CallNo) {}
}

fn new_nic() -> GmacNic<u32> {
    let bufs = (0..RX_RING_SIZE).map(|i| Some(1000 + i as u32)).collect::<Vec<_>>();
    GmacNic::new(0x1_0000, [2, 0, 0, 0, 0, 9], 0x8000, 1, 0x9000, 1, bufs)
}

#[test]
fn gmac_regs_read_modify_write_values() {
    let regs = GmacRegs::new(0x1000);
    let w = regs.set_bits(DMA_OPERATION_MODE, 0x0000_0004, 0x2002);
    assert_eq!(w.addr, 0x1000 + 0x1018);
    assert_eq!(w.value, 0x2006);
    let w = regs.clear_bits(MAC_CONFIGURATION, 0xFFFF_FFFF, 0xC);
    assert_eq!(w.addr, 0x1000);
    assert_eq!(w.value, 0xFFFF_FFF3);
    let w = regs.modify_reg(DMA_BUS_MODE, 0xFF00, 0x0F00, 0x0001);
    assert_eq!(w.value, 0xF001);
    let w = regs.read_and_clear(DMA_STATUS, 0x45);
    assert_eq!((w.addr, w.value), (0x2014, 0x45));
    assert_eq!(regs.reg_addr(0x44), 0x1044);
}

#[test]
fn gmac_rmw_law_on_values() {
    let regs = GmacRegs::new(0);
    let v = 0x1234_5678u32;
    let once = regs.set_bits(0, v, 0xF0).value;
    assert_eq!(regs.set_bits(0, once, 0xF0).value, once);
    let cleared = regs.clear_bits(0, once, 0xF0).value;
    assert_eq!(cleared, regs.clear_bits(0, v, 0xF0).value);
    assert_eq!(regs.modify_reg(0, v, 0xF0, 0x3).value, regs.set_bits(0, regs.clear_bits(0, v, 0xF0).value, 0x3).value);
}

#[test]
fn gmac_mac_decoding_and_validity() {
    let mac = GmacNic::<u32>::mac_from_regs(0x4433_2211, 0x0000_6655);
    assert_eq!(mac, [0x11, 0x22, 0x33, 0x44, 0x55, 0x66]);
    assert!(!GmacNic::<u32>::is_invalid_mac(&mac));
    assert!(GmacNic::<u32>::is_invalid_mac(&[0; 6]));
    assert!(GmacNic::<u32>::is_invalid_mac(&[0xFF; 6]));
    assert!(!GmacNic::<u32>::is_invalid_mac(&[0xFF, 0xFF, 0xFF, 0xFF, 0xFF, 0xFE]));
    // the locally administered default written for an invalid address
    assert_eq!(GmacNic::<u32>::mac_from_regs(0x0000_0002, 0x0000_0100), [2, 0, 0, 0, 0, 1]);
}

#[test]
fn gmac_read_mac_writes_default_for_invalid() {
    let regs = GmacRegs::new(0x100);
    let writes = RefCell::new(Vec::new());
    let mac = GmacNic::<u32>::read_mac(&regs, &|_r: &GmacRegs, _off: usize| 0u32, &|_r: &GmacRegs, off: usize, v: u32| {
        writes.borrow_mut().push((off, v))
    });
    assert_eq!(mac, [2, 0, 0, 0, 0, 1]);
    assert_eq!(*writes.borrow(), vec![(MAC_ADDRESS0_LOW, 2), (MAC_ADDRESS0_HIGH, 0x100)]);
    let writes2 = RefCell::new(Vec::new());
    let mac = GmacNic::<u32>::read_mac(
        &regs,
        &|_r: &GmacRegs, off: usize| if off == MAC_ADDRESS0_LOW { 0x0403_0201 } else { 0x0605 },
        &|_r: &GmacRegs, off: usize, v: u32| writes2.borrow_mut().push((off, v)),
    );
    assert_eq!(mac, [1, 2, 3, 4, 5, 6]);
    assert!(writes2.borrow().is_empty());
}

#[test]
fn gmac_software_reset_outcomes() {
    let regs = GmacRegs::new(0x100);
    let reads = Cell::new(0u32);
    let r = GmacNic::<u32>::software_reset(
        &regs,
        &|_r: &GmacRegs, _o: usize| {
            reads.set(reads.get() + 1);
            if reads.get() < 3 { 1 } else { 0 }
        },
        &|_r: &GmacRegs, _o: usize, _v: u32| {},
    );
    assert_eq!(r, Ok(()));
    assert_eq!(reads.get(), 3);
    let r = GmacNic::<u32>::software_reset(&regs, &|_r: &GmacRegs, _o: usize| 1, &|_r: &GmacRegs, _o: usize, _v: u32| {});
    assert_eq!(r, Err(DevError::BadState));
    assert_eq!(GmacNic::<u32>::check_base(0), Err(DevError::InvalidParam));
    assert_eq!(GmacNic::<u32>::check_base(0x1000), Ok(()));
}

#[test]
fn gmac_ring_setup_is_chained() {
    assert_eq!(GmacNic::<u32>::ring_pages(TX_RING_SIZE), 1);
    assert_eq!(GmacNic::<u32>::ring_pages(129), 2);
    let mut tx = vec![TxDesc::new(); TX_RING_SIZE];
    GmacNic::<u32>::init_tx_ring(&mut tx, 0x8000);
    assert_eq!(tx[0].tdes0, TxDesc::TCH);
    assert_eq!(tx[0].tdes3, 0x8020);
    assert_eq!(tx[126].tdes3, 0x8000 + 127 * 32);
    assert_eq!(tx[127].tdes3, 0x8000);
    let mut rx = vec![RxDesc::new(); RX_RING_SIZE];
    let next = Cell::new(0u32);
    let bufs = GmacNic::<u32>::init_rx_ring::<IdentityKernel, _, _>(
        &mut rx,
        0x9000,
        &|| {
            next.set(next.get() + 1);
            Some(next.get())
        },
        &|b: &u32| (*b as usize) * 0x1000,
    )
    .unwrap();
    assert_eq!(bufs.len(), RX_RING_SIZE);
    assert_eq!(bufs[0], Some(1));
    assert!(rx.iter().all(|d| d.is_owned_by_dma()));
    assert_eq!(rx[0].rdes2, 0x1000_1000);
    assert_eq!(rx[0].rdes1, RxDesc::RCH | RX_BUFFER_SIZE as u32);
    assert_eq!(rx[127].rdes3, 0x9000);
    let mut rx2 = vec![RxDesc::new(); RX_RING_SIZE];
    let r = GmacNic::<u32>::init_rx_ring::<IdentityKernel, _, _>(&mut rx2, 0x9000, &|| None, &|b: &u32| *b as usize);
    assert!(matches!(r, Err(DevError::NoMemory)));
}

#[test]
fn gmac_configuration_writes_in_order() {
    let w = GmacNic::<u32>::configuration_writes(0x8000, 0x9000);
    assert_eq!(
        w,
        vec![
            (0x1010, 0x8000),
            (0x100C, 0x9000),
            (0x1000, (8 << 8) | (1 << 16) | (1 << 25) | (1 << 23)),
            (0x1018, (1 << 21) | (1 << 25) | (1 << 6)),
            (0x0000, (1 << 3) | (1 << 2) | (1 << 11) | (1 << 10) | (1 << 7) | (1 << 13)),
            (0x0004, 1 << 31),
            (0x101C, 0),
        ]
    );
    let regs = GmacRegs::new(0x10);
    let s = GmacNic::<u32>::start_dma(&regs, 0x4);
    assert_eq!((s.addr, s.value), (0x10 + 0x1018, 0x4 | 0x2000 | 0x2));
}

#[test]
fn gmac_transmit_and_reclaim() {
    let mut nic = new_nic();
    let mut tx = vec![TxDesc::new(); TX_RING_SIZE];
    assert!(nic.can_transmit(&tx));
    let idx = nic.transmit::<IdentityKernel>(&mut tx, 7, 60, 0x2000).unwrap();
    assert_eq!(idx, 0);
    assert!(tx[0].is_owned_by_dma());
    assert_eq!(tx[0].tdes2, 0x1000_2000);
    assert_eq!(tx[0].tdes1 & TxDesc::TBS1_MASK, 60);
    assert_eq!(tx[0].tdes0, TxDesc::OWN | TxDesc::FS | TxDesc::LS | TxDesc::TCH);
    // still owned: nothing reclaimed
    assert_eq!(nic.recycle_tx_buffers(&tx), Ok(0));
    tx[0].clear_owned();
    assert_eq!(nic.recycle_tx_buffers(&tx), Ok(1));
    assert_eq!(nic.recycle_tx_buffers(&tx), Ok(0));
}

#[test]
fn gmac_transmit_ring_full_is_again() {
    let mut nic = new_nic();
    let mut tx = vec![TxDesc::new(); TX_RING_SIZE];
    for i in 0..TX_RING_SIZE - 1 {
        assert_eq!(nic.transmit::<IdentityKernel>(&mut tx, i as u32, 64, 0x100), Ok(i));
        tx[i].clear_owned();
    }
    assert!(!nic.can_transmit(&tx));
    assert_eq!(nic.transmit::<IdentityKernel>(&mut tx, 99, 64, 0x100), Err(DevError::Again));
    assert_eq!(nic.recycle_tx_buffers(&tx), Ok(TX_RING_SIZE - 1));
    assert!(nic.can_transmit(&tx));
}

#[test]
fn gmac_receive_paths() {
    let mut nic = new_nic();
    let mut rx = vec![RxDesc::new(); RX_RING_SIZE];
    for d in rx.iter_mut() {
        d.setup_rx(0, RX_BUFFER_SIZE as u32, 0x77);
    }
    // owned by DMA: nothing yet
    assert!(!nic.can_receive(&rx));
    let r = nic.receive::<IdentityKernel>(&mut rx, Some((5000, 0x3000)));
    assert!(matches!(r.result, Err(DevError::Again)) && !r.poll_demand);
    // a good frame of 64 bytes with CRC
    rx[0].rdes0 = (64 << 16) | RxDesc::FS | RxDesc::LS;
    assert!(nic.can_receive(&rx));
    let r = nic.receive::<IdentityKernel>(&mut rx, Some((5000, 0x3000)));
    assert!(r.poll_demand);
    let done = r.result.ok().unwrap();
    assert_eq!((done.buf, done.len), (1000, 60));
    assert!(rx[0].is_owned_by_dma());
    assert_eq!(rx[0].rdes2, 0x1000_3000);
    assert_eq!(rx[0].rdes3, 0x77);
    // an erroneous frame
    rx[1].rdes0 = RxDesc::ES | RxDesc::FS | RxDesc::LS;
    let r = nic.receive::<IdentityKernel>(&mut rx, None);
    assert!(matches!(r.result, Err(DevError::BadState)) && r.poll_demand);
    assert!(rx[1].is_owned_by_dma());
    // a fragmented frame
    rx[2].rdes0 = RxDesc::FS;
    let r = nic.receive::<IdentityKernel>(&mut rx, None);
    assert!(matches!(r.result, Err(DevError::BadState)) && !r.poll_demand);
    // a tiny frame keeps its length, no buffer: NoMemory
    rx[3].rdes0 = (3 << 16) | RxDesc::FS | RxDesc::LS;
    let r = nic.receive::<IdentityKernel>(&mut rx, None);
    assert!(matches!(r.result, Err(DevError::NoMemory)) && !r.poll_demand);
}

#[test]
fn gmac_misc_queries() {
    let mut nic = new_nic();
    assert_eq!(nic.rx_queue_size(), 128);
    assert_eq!(nic.tx_queue_size(), 128);
    assert_eq!(nic.device_name(), "gmac");
    assert_eq!(nic.irq_number(), None);
    assert_eq!(nic.mac_address().0, [2, 0, 0, 0, 0, 9]);
    assert_eq!(nic.enable_interrupts(1, 2), Err(DevError::Unsupported));
    let w = nic.check_and_clear_interrupts(0x41);
    assert_eq!((w.addr, w.value), (0x1_0000 + 0x1014, 0x41));
    let (a, b) = nic.shutdown_writes(0xFFFF_FFFF, 0xFFFF_FFFF);
    assert_eq!(a.value, !0x2002u32);
    assert_eq!(b.value, !0xCu32);
    assert_eq!(nic.ring_allocations(), ((0x8000, 1), (0x9000, 1)));
}

#[test]
fn gmac_receive_allowed_after_buffer_loss() {
    let mut nic = new_nic();
    let mut rx = vec![RxDesc::new(); RX_RING_SIZE];
    for d in rx.iter_mut() {
        d.setup_rx(0, RX_BUFFER_SIZE as u32, 0x77);
    }
    // Nothing received: receiving is allowed (it answers Again)
    assert!(nic.receive_allowed(&rx));
    rx[0].rdes0 = (64 << 16) | RxDesc::FS | RxDesc::LS;
    assert!(nic.receive_allowed(&rx));
    // No new buffer: the frame's buffer is given up
    let r = nic.receive::<IdentityKernel>(&mut rx, None);
    assert!(matches!(r.result, Err(DevError::NoMemory)));
    // The same good frame cannot be taken again
    assert!(!nic.receive_allowed(&rx));
    // An erroneous frame there could be dropped
    rx[0].rdes0 = RxDesc::ES | RxDesc::FS | RxDesc::LS;
    assert!(nic.receive_allowed(&rx));
}

#[test]
fn gmac_bring_up_sequence() {
    let regs = GmacRegs::new(0x1_0000);
    let log = RefCell::new(Vec::new());
    let read = |_r: &GmacRegs, off: usize| -> u32 {
        log.borrow_mut().push((off, None));
        if off == DMA_OPERATION_MODE { 0x0020_0000 } else { 0x55 }
    };
    let write = |_r: &GmacRegs, off: usize, v: u32| log.borrow_mut().push((off, Some(v)));
    let mut tx = vec![TxDesc::new(); TX_RING_SIZE];
    let mut rx = vec![RxDesc::new(); RX_RING_SIZE];
    let next = Cell::new(0u32);
    let nic = GmacNic::<u32>::bring_up::<IdentityKernel, _, _, _, _>(
        &regs,
        [2, 0, 0, 0, 0, 1],
        &mut tx,
        &mut rx,
        (0x4000_0001, 0x8000, 1),
        (0x4000_0002, 0x9000, 1),
        &|| {
            next.set(next.get() + 1);
            Some(next.get())
        },
        &|b: &u32| (*b as usize) * 0x1000,
        &read,
        &write,
    )
    .ok()
    .unwrap();
    assert_eq!(nic.mac_address().0, [2, 0, 0, 0, 0, 1]);
    assert_eq!(nic.ring_allocations(), ((0x8000, 1), (0x9000, 1)));
    // The descriptors: chained, receive buffers at their physical addresses
    assert_eq!(tx[0].tdes3, 0x8000 + 32);
    assert_eq!(rx[0].rdes2, (0x1000 + 0x1000_0000) as u32);
    assert!(rx.iter().all(|d| d.is_owned_by_dma()));
    // The register accesses in order: configuration, DMA start, status clear
    let l = log.borrow().clone();
    let config = GmacNic::<u32>::configuration_writes(0x8000, 0x9000);
    assert_eq!(l.len(), config.len() + 4);
    for (j, (off, v)) in config.iter().enumerate() {
        assert_eq!(l[j], (*off, Some(*v)));
    }
    assert_eq!(l[7], (DMA_OPERATION_MODE, None));
    assert_eq!(l[8], (DMA_OPERATION_MODE, Some(0x0020_0000 | (1 << 13) | (1 << 1))));
    assert_eq!(l[9], (DMA_STATUS, None));
    assert_eq!(l[10], (DMA_STATUS, Some(0x55)));
    // No receive buffer: NoMemory before any register access
    log.borrow_mut().clear();
    let r = GmacNic::<u32>::bring_up::<IdentityKernel, _, _, _, _>(
        &regs,
        [2, 0, 0, 0, 0, 1],
        &mut tx,
        &mut rx,
        (0x4000_0001, 0x8000, 1),
        (0x4000_0002, 0x9000, 1),
        &|| None,
        &|b: &u32| *b as usize,
        &read,
        &write,
    );
    assert!(matches!(r, Err(DevError::NoMemory)));
    assert!(log.borrow().is_empty());
}

#[test]
fn gmac_prepare_sequence() {
    assert!(matches!(
        GmacNic::<u32>::prepare::<IdentityKernel, _, _>(0, &|_r: &GmacRegs, _o: usize| 0u32, &|_r: &GmacRegs, _o: usize, _v: u32| {}, &mut CallNo::first()),
        Err(DevError::InvalidParam)
    ));
    let log = RefCell::new(Vec::new());
    let polls = Cell::new(0u32);
    let read = |_r: &GmacRegs, off: usize| -> u32 {
        log.borrow_mut().push((off, None));
        if off == DMA_BUS_MODE {
            polls.set(polls.get() + 1);
            if polls.get() < 3 { 1 } else { 0 }
        } else {
            0
        }
    };
    let write = |_r: &GmacRegs, off: usize, v: u32| log.borrow_mut().push((off, Some(v)));
    let p = GmacNic::<u32>::prepare::<IdentityKernel, _, _>(0x1_0000, &read, &write, &mut CallNo::first()).ok().unwrap();
    // Reset, three polls, then the MAC address (all zeros: the default written)
    assert_eq!(
        log.borrow().clone(),
        vec![
            (DMA_BUS_MODE, Some(1)),
            (DMA_BUS_MODE, None),
            (DMA_BUS_MODE, None),
            (DMA_BUS_MODE, None),
            (MAC_ADDRESS0_LOW, None),
            (MAC_ADDRESS0_HIGH, None),
            (MAC_ADDRESS0_LOW, Some(2)),
            (MAC_ADDRESS0_HIGH, Some(0x100)),
        ]
    );
    assert_eq!(p.mac, [2, 0, 0, 0, 0, 1]);
    assert_eq!(p.tx, (0x4000_0001, 0x5000_0001, 1));
    assert_eq!(p.rx, (0x4000_0001, 0x5000_0001, 1));
    assert_eq!(p.regs.base, 0x1_0000);
    // A reset that never completes
    let r = GmacNic::<u32>::prepare::<IdentityKernel, _, _>(0x1_0000, &|_r: &GmacRegs, _o: usize| 1u32, &write, &mut CallNo::first());
    assert!(matches!(r, Err(DevError::BadState)));
}

static GMAC_ALLOCS: std::sync::Mutex<usize> = std::sync::Mutex::new(0);
static GMAC_FREED: std::sync::Mutex<Vec<(usize, usize)>> = std::sync::Mutex::new(Vec::new());

/// A platform whose second allocation fails.
struct SecondAllocFails;

impl KernelFunc for SecondAllocFails {
    fn virt_to_phys(addr: usize) -> usize {
        addr
    }
    fn phys_to_virt(addr: usize) -> usize {
        addr
    }
    fn dma_alloc_coherent(pages: usize, _call: &CallNo) -> (usize, usize) {
        let mut n = GMAC_ALLOCS.lock().unwrap();
        *n += 1;
        if *n == 2 { (0, 0) } else { (0x7000_0000 * *n + pages, 0x7800_0000 + pages) }
    }
    fn dma_free_coherent(vaddr: usize, pages: usize, _call: &CallNo) {
        GMAC_FREED.lock().unwrap().push((vaddr, pages));
    }
}

#[test]
fn gmac_prepare_second_ring_fails() {
    let writes = RefCell::new(Vec::new());
    let read = |_r: &GmacRegs, off: usize| -> u32 { if off == MAC_ADDRESS0_LOW { 0x4433_2211 } else { 0 } };
    let write = |_r: &GmacRegs, off: usize, v: u32| writes.borrow_mut().push((off, v));
    let r = GmacNic::<u32>::prepare::<SecondAllocFails, _, _>(0x1_0000, &read, &write, &mut CallNo::first());
    assert!(matches!(r, Err(DevError::NoMemory)));
    // Two allocations, the first ring given back once, no DMA start
    assert_eq!(*GMAC_ALLOCS.lock().unwrap(), 2);
    assert_eq!(GMAC_FREED.lock().unwrap().clone(), vec![(0x7000_0001, 1)]);
    assert!(writes.borrow().iter().all(|(off, _)| *off != DMA_OPERATION_MODE));
}

#[test]
fn gmac_alloc_rings_two_allocations() {
    let (tx, rx) = GmacNic::<u32>::alloc_rings::<CountingKernel>(&mut CallNo::first()).ok().unwrap();
    assert_ne!(tx.0, rx.0);
    assert_eq!(tx, (0x6000_0001, 0x6800_0001, 1));
    assert_eq!(rx, (0x6000_1001, 0x6800_1001, 1));
}

static COUNTED: std::sync::Mutex<usize> = std::sync::Mutex::new(0);

/// A platform that hands out a new page run for each allocation.
struct CountingKernel;

impl KernelFunc for CountingKernel {
    fn virt_to_phys(addr: usize) -> usize {
        addr
    }
    fn phys_to_virt(addr: usize) -> usize {
        addr
    }
    fn dma_alloc_coherent(pages: usize, _call: &CallNo) -> (usize, usize) {
        let mut n = COUNTED.lock().unwrap();
        let k = *n;
        *n += 1;
        (0x6000_0000 + 0x1000 * k + pages, 0x6800_0000 + 0x1000 * k + pages)
    }
    fn dma_free_coherent(_vaddr: usize, _pages: usize, _call: &CallNo) {}
}
