use axdriver_net::gmac::{RxDesc, TxDesc};

#[test]
fn gmac_tx_desc_new_is_zero() {
    let d = TxDesc::new();
    assert_eq!(d, TxDesc { tdes0: 0, tdes1: 0, tdes2: 0, tdes3: 0, tdes4: 0, tdes5: 0, tdes6: 0, tdes7: 0 });
    assert!(!d.is_owned_by_dma());
}

#[test]
fn gmac_tx_desc_addresses() {
    let mut d = TxDesc::new();
    d.set_buf1_addr(0x1234_5678);
    d.set_next_desc(0x8765_4320);
    assert_eq!(d.tdes2, 0x1234_5678);
    assert_eq!(d.tdes3, 0x8765_4320);
    assert_eq!(d.tdes0, 0);
    assert_eq!(d.tdes1, 0);
}

#[test]
fn gmac_tx_buf1_size_keeps_other_bits() {
    let mut d = TxDesc::new();
    d.tdes1 = 0xFFFF_FFFF;
    d.set_buf1_size(0x12345);
    assert_eq!(d.tdes1, 0xFFFF_E000 | 0x0345);
    d.set_buf1_size(100);
    d.set_buf1_size(1514);
    assert_eq!(d.tdes1 & TxDesc::TBS1_MASK, 1514);
    assert_eq!(d.tdes1 & !TxDesc::TBS1_MASK, 0xFFFF_E000);
}

#[test]
fn gmac_tx_ownership_round_trip() {
    let mut d = TxDesc::new();
    d.tdes0 = TxDesc::FS | TxDesc::LS | TxDesc::TCH;
    d.set_owned_by_dma();
    assert!(d.is_owned_by_dma());
    assert_eq!(d.tdes0, 0x8000_0000 | 0x3010_0000);
    d.clear_owned();
    assert!(!d.is_owned_by_dma());
    assert_eq!(d.tdes0, 0x3010_0000);
}

#[test]
fn gmac_tx_setup_last_and_not_last() {
    let mut d = TxDesc::new();
    d.tdes5 = 7;
    d.setup_tx(0x1000, 0x2345, 0x2000, false);
    assert_eq!(d.tdes0, 0x3010_0000);
    assert_eq!(d.tdes1, 0x0345);
    assert_eq!(d.tdes2, 0x1000);
    assert_eq!(d.tdes3, 0x2000);
    assert_eq!(d.tdes5, 0);
    assert!(!d.is_owned_by_dma());
    d.setup_tx(0x1000, 60, 0x2000, true);
    assert_eq!(d.tdes0, 0x7010_0000);
    assert_eq!(d.tdes1, 60);
}

#[test]
fn gmac_rx_desc_status_fields() {
    let mut d = RxDesc::new();
    assert!(!d.is_owned_by_dma());
    d.rdes0 = (1518 << 16) | RxDesc::FS | RxDesc::LS;
    assert_eq!(d.frame_length(), 1518);
    assert!(d.is_complete_frame());
    assert!(!d.has_error());
    d.rdes0 |= RxDesc::ES;
    assert!(d.has_error());
    d.rdes0 = RxDesc::FS;
    assert!(!d.is_complete_frame());
    d.rdes0 = 0xFFFF_FFFF;
    assert_eq!(d.frame_length(), 0x3FFF);
}

#[test]
fn gmac_rx_setup_hands_to_dma() {
    let mut d = RxDesc::new();
    d.rdes0 = 0x1234;
    d.rdes4 = 9;
    d.setup_rx(0xABCD_0000, 1526, 0x5000);
    assert_eq!(d.rdes0, 0x8000_0000);
    assert_eq!(d.rdes1, 0x4000 | 1526);
    assert_eq!(d.rdes2, 0xABCD_0000);
    assert_eq!(d.rdes3, 0x5000);
    assert_eq!(d.rdes4, 0);
    assert!(d.is_owned_by_dma());
    assert!(!d.has_error());
}

#[test]
fn gmac_rx_ownership_and_sizes() {
    let mut d = RxDesc::new();
    d.rdes0 = RxDesc::ES | RxDesc::LS;
    d.set_owned_by_dma();
    assert_eq!(d.rdes0, 0x8000_0000 | 0x8000 | 0x100);
    d.clear_owned();
    assert_eq!(d.rdes0, 0x8000 | 0x100);
    d.rdes1 = RxDesc::RCH;
    d.set_buf1_size(0xFFFF);
    assert_eq!(d.rdes1, RxDesc::RCH | 0x1FFF);
    d.set_buf1_addr(0x42);
    d.set_next_desc(0x84);
    assert_eq!((d.rdes2, d.rdes3), (0x42, 0x84));
}
